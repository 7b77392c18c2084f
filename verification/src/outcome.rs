//! The two ends of a bridge and the reasons for which a session ends.

use vstd::prelude::*;

verus! {

/// One of the two ends that a session relays between.
#[derive(Clone, Copy, Debug, PartialEq, Eq, Structural)]
pub enum Side {
    /// The TCP connection to the client.
    Stream,
    /// The serial device.
    Serial,
}

impl Side {
    /// The end that bytes read from `self` are written to.
    pub open spec fn spec_opposite(self) -> Side {
        match self {
            Side::Stream => Side::Serial,
            Side::Serial => Side::Stream,
        }
    }

    /// The end that bytes read from `self` are written to.
    #[verifier::when_used_as_spec(spec_opposite)]
    pub fn opposite(self) -> (other: Side)
        ensures
            other == self.spec_opposite(),
    {
        match self {
            Side::Stream => Side::Serial,
            Side::Serial => Side::Stream,
        }
    }
}

/// Why a session ended.
#[derive(Clone, Copy, Debug, PartialEq, Eq, Structural)]
pub enum Outcome {
    /// The serial device could not be opened, so nothing was relayed.
    DeviceUnavailable,
    /// The TCP side failed: an error or hang-up on the connection, or a read
    /// from it or a write to it that failed.
    PeerDisconnected,
    /// The serial side failed: an error, hang-up or closed descriptor, or a
    /// read from the device or a write to it that failed.
    DeviceDisconnected,
}

impl Outcome {
    /// One line that says why the session ended.
    pub open spec fn spec_describe(self) -> Seq<char> {
        match self {
            Outcome::DeviceUnavailable => {
                "serial: device could not be opened, session not started"@
            },
            Outcome::PeerDisconnected => "stream: broken pipe received, returning to main loop"@,
            Outcome::DeviceDisconnected => "serial: err received, returning to main loop"@,
        }
    }

    /// One line that says why the session ended.
    pub fn describe(self) -> (line: &'static str)
        ensures
            line@ == self.spec_describe(),
    {
        match self {
            Outcome::DeviceUnavailable => "serial: device could not be opened, session not started",
            Outcome::PeerDisconnected => "stream: broken pipe received, returning to main loop",
            Outcome::DeviceDisconnected => "serial: err received, returning to main loop",
        }
    }
}

/// The outcome of a session that ends because `side` failed.
pub open spec fn spec_failure_of(side: Side) -> Outcome {
    match side {
        Side::Stream => Outcome::PeerDisconnected,
        Side::Serial => Outcome::DeviceDisconnected,
    }
}

/// The outcome of a session that ends because `side` failed.
#[verifier::when_used_as_spec(spec_failure_of)]
pub fn failure_of(side: Side) -> (outcome: Outcome)
    ensures
        outcome == spec_failure_of(side),
{
    match side {
        Side::Stream => Outcome::PeerDisconnected,
        Side::Serial => Outcome::DeviceDisconnected,
    }
}

} // verus!
