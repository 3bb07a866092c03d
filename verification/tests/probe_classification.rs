use web3_closest_provider::probe::{
    classify_probe_response, probe_outcome_value, probe_request_body, ProbeError,
};
use web3_closest_provider::table::UNREACHABLE_MICROS;

#[test]
fn request_body_is_the_fixed_envelope() {
    assert_eq!(
        probe_request_body(),
        "{\"id\":1,\"jsonrpc\":\"2.0\",\"method\":\"web3_clientVersion\",\"params\":[]}"
    );
}

#[test]
fn clean_envelope_yields_measured_duration() {
    let body = "{\"jsonrpc\":\"2.0\",\"id\":1,\"result\":\"Geth/v1.13.0\"}";
    assert_eq!(classify_probe_response(body, 1_234), Ok(1_234));
}

#[test]
fn null_error_member_counts_as_clean() {
    let body = "{\"jsonrpc\":\"2.0\",\"id\":1,\"result\":\"x\",\"error\":null}";
    assert_eq!(classify_probe_response(body, 42), Ok(42));
}

#[test]
fn populated_error_member_is_an_rpc_fault() {
    let body =
        "{\"jsonrpc\":\"2.0\",\"id\":1,\"error\":{\"code\":-32601,\"message\":\"no such method\"}}";
    assert_eq!(
        classify_probe_response(body, 1_234),
        Err(ProbeError::RpcFault)
    );
}

#[test]
fn unparsable_body_is_malformed() {
    assert_eq!(
        classify_probe_response("not json at all", 9),
        Err(ProbeError::Malformed)
    );
    // Valid JSON that is not an object is not the expected envelope either.
    assert_eq!(
        classify_probe_response("[1,2,3]", 9),
        Err(ProbeError::Malformed)
    );
    assert_eq!(classify_probe_response("", 9), Err(ProbeError::Malformed));
}

#[test]
fn failed_probe_folds_into_sentinel() {
    assert_eq!(probe_outcome_value(Ok(777)), 777);
    assert_eq!(
        probe_outcome_value(Err(ProbeError::Transport)),
        UNREACHABLE_MICROS
    );
    assert_eq!(
        probe_outcome_value(Err(ProbeError::Malformed)),
        UNREACHABLE_MICROS
    );
    assert_eq!(
        probe_outcome_value(Err(ProbeError::RpcFault)),
        UNREACHABLE_MICROS
    );
}
