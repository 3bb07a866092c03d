use web3_closest_provider::table::{LatencyTable, UNREACHABLE_MICROS};

#[test]
fn empty_table_is_not_ready() {
    let t = LatencyTable::new();
    assert!(!t.snapshot_is_nonempty());
}

#[test]
fn record_inserts_and_overwrites() {
    let mut t = LatencyTable::new();
    let a = "https://eth.llamarpc.com".to_string();
    t.record(&a, 1_500);
    assert!(t.snapshot_is_nonempty());
    assert_eq!(t.fastest(), a);
    // A later probe round overwrites the prior value; no second entry
    // appears for the same endpoint.
    t.record(&a, 4_000);
    assert_eq!(t.fastest(), a);
}

#[test]
fn fastest_returns_minimum() {
    let mut t = LatencyTable::new();
    let slow = "https://uk.rpc.blxrbdn.com".to_string();
    let fast = "https://virginia.rpc.blxrbdn.com".to_string();
    let mid = "https://singapore.rpc.blxrbdn.com".to_string();
    t.record(&slow, 90_000);
    t.record(&fast, 12_000);
    t.record(&mid, 45_000);
    assert_eq!(t.fastest(), fast);
}

#[test]
fn fastest_tie_break_is_first_recorded() {
    let mut t = LatencyTable::new();
    let first = "https://mainnet.gateway.tenderly.co".to_string();
    let second = "https://gateway.tenderly.co/public/mainnet".to_string();
    t.record(&first, 7_777);
    t.record(&second, 7_777);
    // Equal values: the choice is deterministic for a fixed snapshot — the
    // first-recorded endpoint wins.
    assert_eq!(t.fastest(), first);
    assert_eq!(t.fastest(), first);
}

#[test]
fn unreachable_sentinel_loses_to_any_measurement() {
    let mut t = LatencyTable::new();
    let down = "https://core.gashawk.io/rpc".to_string();
    let up = "https://eth.llamarpc.com".to_string();
    t.record(&down, UNREACHABLE_MICROS);
    t.record(&up, 250_000);
    assert_eq!(t.fastest(), up);
}

#[test]
fn all_unreachable_still_selects_someone() {
    let mut t = LatencyTable::new();
    let a = "wss://ethereum.publicnode.com".to_string();
    let b = "wss://mainnet.gateway.tenderly.co".to_string();
    t.record(&a, UNREACHABLE_MICROS);
    t.record(&b, UNREACHABLE_MICROS);
    // Every endpoint down: selection still returns some endpoint, the
    // least-bad one by sentinel comparison.
    assert_eq!(t.fastest(), a);
}

#[test]
fn clear_resets_readiness() {
    let mut t = LatencyTable::new();
    let a = "https://eth.llamarpc.com".to_string();
    t.record(&a, 100);
    assert!(t.snapshot_is_nonempty());
    t.clear();
    assert!(!t.snapshot_is_nonempty());
}
