//! What a session does after one round of readiness checks.

use crate::outcome::{Outcome, Side};
use crate::readiness::Readiness;
use vstd::prelude::*;

verus! {

/// The verdict on one round of readiness checks.
#[derive(Clone, Copy, Debug, PartialEq, Eq, Structural)]
pub enum Decision {
    /// End the session with this outcome; no data is moved in this round.
    Terminate(Outcome),
    /// Read from this side and forward what was read to the other.
    Relay(Side),
    /// Nothing to do in this round.
    Idle,
}

/// The verdict on the readiness of both sides. Errors come before data, and
/// the stream comes before the serial device in both.
pub open spec fn spec_decide(stream: Readiness, serial: Readiness) -> Decision {
    if stream.error {
        Decision::Terminate(Outcome::PeerDisconnected)
    } else if serial.error {
        Decision::Terminate(Outcome::DeviceDisconnected)
    } else if stream.readable {
        Decision::Relay(Side::Stream)
    } else if serial.readable {
        Decision::Relay(Side::Serial)
    } else {
        Decision::Idle
    }
}

/// Decides what to do after the stream and the serial device were checked.
#[verifier::when_used_as_spec(spec_decide)]
pub fn decide(stream: Readiness, serial: Readiness) -> (decision: Decision)
    ensures
        decision == spec_decide(stream, serial),
{
    if stream.error {
        Decision::Terminate(Outcome::PeerDisconnected)
    } else if serial.error {
        Decision::Terminate(Outcome::DeviceDisconnected)
    } else if stream.readable {
        Decision::Relay(Side::Stream)
    } else if serial.readable {
        Decision::Relay(Side::Serial)
    } else {
        Decision::Idle
    }
}

} // verus!
