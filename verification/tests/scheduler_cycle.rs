use web3_closest_provider::scheduler::{
    scheduler_step, SchedulerAction, SchedulerEvent, SchedulerState,
};
use web3_closest_provider::table::{LatencyTable, UNREACHABLE_MICROS};

#[test]
fn stop_signal_exits_regardless_of_sweep_progress() {
    assert_eq!(
        scheduler_step(SchedulerState::Running, SchedulerEvent::StopObserved),
        (SchedulerState::Stopped, SchedulerAction::Exit)
    );
    // A stop requested earlier is honored at the next wake-up whatever
    // raced it.
    assert_eq!(
        scheduler_step(SchedulerState::StopRequested, SchedulerEvent::SweepCompleted),
        (SchedulerState::Stopped, SchedulerAction::Exit)
    );
    assert_eq!(
        scheduler_step(SchedulerState::StopRequested, SchedulerEvent::IntervalElapsed),
        (SchedulerState::Stopped, SchedulerAction::Exit)
    );
}

#[test]
fn sweep_or_interval_starts_the_next_cycle() {
    assert_eq!(
        scheduler_step(SchedulerState::Running, SchedulerEvent::SweepCompleted),
        (SchedulerState::Running, SchedulerAction::BeginCycle)
    );
    assert_eq!(
        scheduler_step(SchedulerState::Running, SchedulerEvent::IntervalElapsed),
        (SchedulerState::Running, SchedulerAction::BeginCycle)
    );
}

#[test]
fn test_provider_with_multiple_requests() {
    let urls: Vec<String> = vec![
        "https://eth.llamarpc.com",
        "https://rpc.lokibuilder.xyz/wallet",
        "wss://ethereum.publicnode.com",
        "wss://mainnet.gateway.tenderly.co",
        "https://gateway.tenderly.co/public/mainnet",
        "https://core.gashawk.io/rpc",
        "https://mainnet.gateway.tenderly.co",
        "https://virginia.rpc.blxrbdn.com",
        "https://uk.rpc.blxrbdn.com",
        "https://singapore.rpc.blxrbdn.com",
    ]
    .iter()
    .map(|&s| s.to_string())
    .collect();
    let unreachable = "wss://ethereum.publicnode.com".to_string();

    let mut t = LatencyTable::new();
    // Three sweep cycles; the latencies drift between rounds, but one host
    // stays unreachable throughout.
    for round in 0..3u128 {
        let values: Vec<u128> = urls
            .iter()
            .enumerate()
            .map(|(i, u)| {
                if *u == unreachable {
                    UNREACHABLE_MICROS
                } else {
                    10_000 + 1_000 * (i as u128) + 137 * round
                }
            })
            .collect();
        t.record_sweep(&urls, &values);
        let fastest = t.fastest();
        // A known-unreachable endpoint is never selected while reachable
        // ones exist.
        assert_ne!(fastest, unreachable);
    }
}

#[test]
fn sweep_records_every_endpoint_and_last_write_wins() {
    let urls = vec![
        "https://eth.llamarpc.com".to_string(),
        "https://virginia.rpc.blxrbdn.com".to_string(),
        "https://eth.llamarpc.com".to_string(),
    ];
    let values = vec![9_000u128, 5_000, 2_000];
    let mut t = LatencyTable::new();
    t.record_sweep(&urls, &values);
    // The duplicate endpoint keeps only its last outcome, which is now the
    // minimum.
    assert_eq!(t.fastest(), "https://eth.llamarpc.com".to_string());
}
