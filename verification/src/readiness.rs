//! What one readiness check says about a descriptor.

use nix::poll::PollFlags;
use vstd::prelude::*;

verus! {

/// Event bit: there is data to read.
pub const INPUT: i16 = 0x0001;

/// Event bit: an error condition is pending on the descriptor.
pub const ERROR: i16 = 0x0008;

/// Event bit: the other end hung up.
pub const HANGUP: i16 = 0x0010;

/// Event bit: the descriptor is not open.
pub const INVALID: i16 = 0x0020;

/// Whether the returned events `revents` hold at least one bit of `mask`.
pub open spec fn reported(revents: i16, mask: i16) -> bool {
    revents & mask != 0
}

/// The four conditions that the relay looks for in the returned events of a
/// descriptor.
struct Conditions {
    input: bool,
    error: bool,
    hangup: bool,
    invalid: bool,
}

/// Reads the returned events of a descriptor through nix:
/// `PollFlags::from_bits_truncate` builds the flag set and `PollFlags::contains`
/// is asked for `POLLIN`, `POLLERR`, `POLLHUP` and `POLLNVAL` in turn.
///
/// Trusted: each answer is claimed to be the test of that flag's bit in
/// `revents`, with the bit values that libc gives the flags on Linux. Every one
/// of the four is a single bit that `from_bits_truncate` keeps, so bits that nix
/// does not know do not change an answer.
#[verifier::external_body]
fn conditions(revents: i16) -> (c: Conditions)
    ensures
        c.input == reported(revents, INPUT),
        c.error == reported(revents, ERROR),
        c.hangup == reported(revents, HANGUP),
        c.invalid == reported(revents, INVALID),
{
    let flags = PollFlags::from_bits_truncate(revents);
    Conditions {
        input: flags.contains(PollFlags::POLLIN),
        error: flags.contains(PollFlags::POLLERR),
        hangup: flags.contains(PollFlags::POLLHUP),
        invalid: flags.contains(PollFlags::POLLNVAL),
    }
}

/// The two facts that the relay needs about one side after a readiness check.
#[derive(Clone, Copy, Debug, PartialEq, Eq)]
pub struct Readiness {
    /// Data can be read without blocking.
    pub readable: bool,
    /// The side is gone or broken.
    pub error: bool,
}

/// The readiness of the TCP stream: an error is a pending error or a hang-up.
pub open spec fn stream_readiness_of(revents: i16) -> Readiness {
    Readiness {
        readable: reported(revents, INPUT),
        error: reported(revents, ERROR) || reported(revents, HANGUP),
    }
}

/// The readiness of the serial device: an error is a pending error, a hang-up
/// or a descriptor that is no longer open.
pub open spec fn serial_readiness_of(revents: i16) -> Readiness {
    Readiness {
        readable: reported(revents, INPUT),
        error: reported(revents, ERROR) || reported(revents, HANGUP) || reported(
            revents,
            INVALID,
        ),
    }
}

/// Decodes the events that a readiness check returned for the TCP stream.
pub fn stream_readiness(revents: i16) -> (r: Readiness)
    ensures
        r == stream_readiness_of(revents),
{
    let c = conditions(revents);
    Readiness { readable: c.input, error: c.error || c.hangup }
}

/// Decodes the events that a readiness check returned for the serial device.
pub fn serial_readiness(revents: i16) -> (r: Readiness)
    ensures
        r == serial_readiness_of(revents),
{
    let c = conditions(revents);
    Readiness { readable: c.input, error: c.error || c.hangup || c.invalid }
}

} // verus!
