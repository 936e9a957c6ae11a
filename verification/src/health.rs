//! Classification of a single health probe.

use vstd::prelude::*;

verus! {

/// HTTP status that marks an endpoint as healthy.
pub const HTTP_OK: u16 = 200;

/// HTTP status with which a server reports that the request timed out.
pub const HTTP_REQUEST_TIMEOUT: u16 = 408;

/// Seconds a single probe may take before it counts as a transport failure.
pub const PROBE_TIMEOUT_SECS: u64 = 10;

/// What a probe found out about an endpoint.
#[derive(Clone, Copy, Debug, PartialEq, Eq, Structural)]
pub enum ServerState {
    ServerOk,
    ServerUnresponsive,
}

/// What the transport reports for one GET request.
#[derive(Clone, Copy, Debug, PartialEq, Eq, Structural)]
pub enum ProbeResult {
    /// A response arrived and carries this status code.
    Status(u16),
    /// No response: connection refused, name not resolved, timeout expired,
    /// TLS failure.
    TransportFailure,
}

/// The outcome assigned to a probe result. Only status 200 is healthy. A
/// request timeout is unresponsive, and so is every other status and every
/// transport failure.
pub open spec fn outcome_of(probe: ProbeResult) -> ServerState {
    match probe {
        ProbeResult::Status(code) => if code == HTTP_OK {
            ServerState::ServerOk
        } else {
            ServerState::ServerUnresponsive
        },
        ProbeResult::TransportFailure => ServerState::ServerUnresponsive,
    }
}

/// Classifies a probe result. Total: no input aborts.
pub fn classify(probe: ProbeResult) -> (outcome: ServerState)
    ensures
        outcome == outcome_of(probe),
        outcome == ServerState::ServerOk <==> probe == ProbeResult::Status(HTTP_OK),
        probe == ProbeResult::Status(HTTP_REQUEST_TIMEOUT) ==> outcome
            == ServerState::ServerUnresponsive,
{
    match probe {
        ProbeResult::Status(code) => {
            if code == HTTP_OK {
                ServerState::ServerOk
            } else {
                // Any other status is a failed probe, never a reason to give
                // up on the endpoint.
                ServerState::ServerUnresponsive
            }
        },
        ProbeResult::TransportFailure => ServerState::ServerUnresponsive,
    }
}

} // verus!
