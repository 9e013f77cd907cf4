//! The wire protocol's two text tokens and the acknowledgment test.

use vstd::prelude::*;

verus! {

/// The exact text payload that requests a liveness confirmation.
pub open spec fn spec_probe_token() -> Seq<char> {
    "PING"@
}

/// The exact text payload that signals liveness.
pub open spec fn spec_ack_token() -> Seq<char> {
    "PONG"@
}

/// A payload acknowledges the probe exactly when it equals the
/// acknowledgment token; every other payload is ignored.
pub open spec fn is_ack(payload: Seq<char>) -> bool {
    payload == spec_ack_token()
}

/// The probe message sent as a text frame once the connection is open.
pub fn probe_token() -> (t: String)
    ensures
        t@ == spec_probe_token(),
{
    "PING".to_owned()
}

/// The acknowledgment message the prober waits for.
pub fn ack_token() -> (t: String)
    ensures
        t@ == spec_ack_token(),
{
    "PONG".to_owned()
}

/// Decides whether an incoming text payload is the acknowledgment token.
pub fn payload_is_ack(payload: &String) -> (b: bool)
    ensures
        b == is_ack(payload@),
{
    let token = ack_token();
    *payload == token
}

} // verus!
