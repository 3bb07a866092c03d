//! Single-probe execution: the fixed JSON-RPC payload and the classification
//! of one completed probe.
//!
//! A probe is one request-response cycle against a single endpoint, used
//! purely as a liveness/latency measurement. The caller measures wall-clock
//! time around the exchange and hands the response body and the elapsed time
//! to the classifier; every failure (transport, malformed envelope,
//! RPC-level error) folds into the unreachable sentinel, never surfacing to
//! callers, and the next cycle retries naturally.

use vstd::prelude::*;

use crate::table::UNREACHABLE_MICROS;

verus! {

/// The characters of the fixed probe request payload.
pub open spec fn probe_request_text() -> Seq<char> {
    "{\"id\":1,\"jsonrpc\":\"2.0\",\"method\":\"web3_clientVersion\",\"params\":[]}"@
}

/// The fixed JSON-RPC 2.0 request sent to every endpoint as a probe: a
/// lightweight client-version call with an empty parameter list and a
/// constant request id.
pub fn probe_request_body() -> (r: &'static str)
    ensures
        r@ == probe_request_text(),
{
    "{\"id\":1,\"jsonrpc\":\"2.0\",\"method\":\"web3_clientVersion\",\"params\":[]}"
}

/// How a response body reads as a JSON-RPC envelope: `None` when it does not
/// parse as a JSON object; `Some(true)` when it parses and carries a
/// populated (non-null) top-level `error` member; `Some(false)` when it
/// parses cleanly. A function of the characters of the body alone.
pub uninterp spec fn envelope_verdict(body: Seq<char>) -> Option<bool>;

/// Relies on `serde_json::from_str::<Value>` and on `Value::get` /
/// `Value::is_null`: whether a body parses as a JSON object and whether its
/// top-level `error` member is populated depend on the body's characters
/// alone; the result is named by [`envelope_verdict`].
#[verifier::external_body]
fn inspect_envelope(body: &str) -> (r: Option<bool>)
    ensures
        r == envelope_verdict(body@),
{
    match serde_json::from_str::<serde_json::Value>(body) {
        Ok(serde_json::Value::Object(members)) => match members.get("error") {
            None => Some(false),
            Some(e) => if e.is_null() {
                Some(false)
            } else {
                Some(true)
            },
        },
        Ok(_) => None,
        Err(_) => None,
    }
}

/// Why a single probe yielded no measurement. Recovered locally: every
/// variant folds into the unreachable sentinel for this cycle.
#[derive(Clone, Copy, Debug, PartialEq, Eq, Structural)]
pub enum ProbeError {
    /// The request produced no response body (connection refused, timeout,
    /// TLS failure and the like).
    Transport,
    /// The response body was not parsable as the expected envelope.
    Malformed,
    /// The envelope parsed but carried a populated error member.
    RpcFault,
}

/// Classifies one completed probe exchange: the measured duration when the
/// envelope parses cleanly, an error otherwise.
pub fn classify_probe_response(body: &str, elapsed_micros: u128) -> (r: Result<u128, ProbeError>)
    ensures
        envelope_verdict(body@) == Some(false) ==> r == Ok::<u128, ProbeError>(elapsed_micros),
        envelope_verdict(body@) == None::<bool> ==> r == Err::<u128, ProbeError>(
            ProbeError::Malformed,
        ),
        envelope_verdict(body@) == Some(true) ==> r == Err::<u128, ProbeError>(
            ProbeError::RpcFault,
        ),
        r matches Ok(m) ==> m == elapsed_micros && envelope_verdict(body@) == Some(false),
{
    match inspect_envelope(body) {
        Some(fault) => if fault {
            Err(ProbeError::RpcFault)
        } else {
            Ok(elapsed_micros)
        },
        None => Err(ProbeError::Malformed),
    }
}

/// Folds a probe outcome into the value recorded in the table: a failed
/// probe records the unreachable sentinel.
pub fn probe_outcome_value(outcome: Result<u128, ProbeError>) -> (r: u128)
    ensures
        outcome matches Ok(m) ==> r == m,
        outcome matches Err(_) ==> r == UNREACHABLE_MICROS,
{
    match outcome {
        Ok(m) => m,
        Err(_) => UNREACHABLE_MICROS,
    }
}

} // verus!
