//! The fixed record that a bridge is started with.

use vstd::prelude::*;
use vstd::string::StringExecFns;

verus! {

/// How much a bridge says about what it does. It never changes what is
/// relayed.
#[derive(Clone, Copy, Debug, PartialEq, Eq, Structural)]
pub enum Verbosity {
    /// Level 0: failures only.
    Off,
    /// Level 1: also the start of each session.
    Low,
    /// Level 2: also the size of each transfer.
    On,
    /// Level 3 and above: the same as level 2.
    Full,
}

impl Verbosity {
    /// The verbosity for a debug level.
    pub open spec fn spec_of(level: u8) -> Verbosity {
        if level == 0 {
            Verbosity::Off
        } else if level == 1 {
            Verbosity::Low
        } else if level == 2 {
            Verbosity::On
        } else {
            Verbosity::Full
        }
    }

    /// The verbosity for a debug level.
    #[verifier::when_used_as_spec(spec_of)]
    pub fn of(level: u8) -> (verbosity: Verbosity)
        ensures
            verbosity == Verbosity::spec_of(level),
    {
        if level == 0 {
            Verbosity::Off
        } else if level == 1 {
            Verbosity::Low
        } else if level == 2 {
            Verbosity::On
        } else {
            Verbosity::Full
        }
    }

    /// The line that says which verbosity is in force.
    pub open spec fn spec_label(self) -> Seq<char> {
        match self {
            Verbosity::Off => "Debug mode is off"@,
            Verbosity::Low => "Debug mode is kind of on"@,
            Verbosity::On => "Debug mode is on"@,
            Verbosity::Full => "Debug mode is ON"@,
        }
    }

    /// The line that says which verbosity is in force.
    pub fn label(self) -> (line: &'static str)
        ensures
            line@ == self.spec_label(),
    {
        match self {
            Verbosity::Off => "Debug mode is off",
            Verbosity::Low => "Debug mode is kind of on",
            Verbosity::On => "Debug mode is on",
            Verbosity::Full => "Debug mode is ON",
        }
    }

    /// Whether the start of a session is announced: from level 1 on.
    pub fn announces_sessions(self) -> (yes: bool)
        ensures
            yes == !(self is Off),
    {
        match self {
            Verbosity::Off => false,
            _ => true,
        }
    }

    /// Whether the size of each transfer is reported: from level 2 on.
    pub fn reports_transfers(self) -> (yes: bool)
        ensures
            yes == (self is On || self is Full),
    {
        match self {
            Verbosity::On | Verbosity::Full => true,
            _ => false,
        }
    }
}

/// What a bridge is told when it starts.
#[derive(Clone, Debug)]
pub struct Config {
    /// The address of the interface to listen on.
    pub address: String,
    /// The TCP port to listen on.
    pub port: String,
    /// The path of the serial device that each session opens.
    pub serial_dev: String,
    /// The bit rate that the serial device is opened with.
    pub baud: u32,
    /// The debug level.
    pub debug: u8,
}

impl Config {
    /// The text to bind the listener to: the address, a colon, the port.
    pub open spec fn spec_endpoint(self) -> Seq<char> {
        self.address@ + ":"@ + self.port@
    }

    /// The text to bind the listener to: the address, a colon, the port.
    pub fn endpoint(&self) -> (text: String)
        ensures
            text@ == self.spec_endpoint(),
    {
        self.address.clone().concat(":").concat(self.port.as_str())
    }

    /// How much the bridge says.
    pub fn verbosity(&self) -> (verbosity: Verbosity)
        ensures
            verbosity == Verbosity::of(self.debug),
    {
        Verbosity::of(self.debug)
    }
}

} // verus!
