//! One relay session as a state machine.
//!
//! A session never touches a handle. It tells its driver what to do next with
//! an [`Action`], and the driver answers with the [`Event`] that resulted. The
//! transition function [`next`] is the whole behaviour; [`Session::step`]
//! computes it.

use crate::decision::{decide, Decision};
use crate::outcome::{failure_of, Outcome, Side};
use crate::readiness::{
    serial_readiness, serial_readiness_of, stream_readiness, stream_readiness_of,
};
use vstd::prelude::*;
use vstd::slice::slice_subrange;

verus! {

/// The number of bytes that a session asks for in one read unless it was made
/// with another limit.
pub const SCRATCH_CAPACITY: usize = 4096;

/// The longest that one readiness check may wait, in milliseconds.
pub const POLL_TIMEOUT_MS: i64 = 1;

/// Where a session stands in its cycle.
#[derive(Clone, Copy, Debug, PartialEq, Eq, Structural)]
pub enum Phase {
    /// Waiting to hear whether the serial device could be opened.
    Opening,
    /// Waiting for the result of a round of readiness checks.
    Polling,
    /// Waiting for the result of a read from this side.
    Reading(Side),
    /// Waiting for the result of a write to this side. A chunk is in flight.
    Writing(Side),
    /// The session is over.
    Closed(Outcome),
}

/// What the driver has to do for the session.
#[derive(Clone, Copy, Debug, PartialEq, Eq, Structural)]
pub enum Action {
    /// Open the serial device and report `Opened` or `OpenFailed`.
    Open,
    /// Check the stream, then the serial device, for readiness, each with a
    /// wait of at most [`POLL_TIMEOUT_MS`], and report `Polled`.
    Poll,
    /// Read at most `max` bytes from `from` and report `Read` or `ReadFailed`.
    Read { from: Side, max: usize },
    /// Write the bytes of [`Session::pending`] to `to` and report `Written`
    /// with the number of bytes that were taken, or `WriteFailed`.
    Write { to: Side },
    /// Close every handle the session holds and report the outcome upwards.
    /// A session asks for this once.
    Release(Outcome),
    /// The session is over and has nothing left to ask for.
    Done,
}

/// What the driver reports back.
#[derive(Debug)]
pub enum Event {
    /// The serial device is open.
    Opened,
    /// The serial device could not be opened.
    OpenFailed,
    /// Both readiness checks returned, with these event bits for the stream
    /// and for the serial device.
    Polled { stream: i16, serial: i16 },
    /// A read returned these bytes; none at all if nothing was there.
    Read(Vec<u8>),
    /// A read failed.
    ReadFailed,
    /// A write took this many bytes from the front of the pending bytes.
    Written(usize),
    /// A write failed.
    WriteFailed,
}

/// The state of a session as a mathematical value.
pub struct State {
    /// Where the session stands.
    pub phase: Phase,
    /// The chunk in flight; empty unless the phase is `Writing`.
    pub chunk: Seq<u8>,
    /// How many bytes of the chunk the destination has taken so far.
    pub sent: nat,
    /// The most that one read may return.
    pub capacity: usize,
}

impl State {
    /// The state of a session that was just made.
    pub open spec fn initial(capacity: usize) -> State {
        State { phase: Phase::Opening, chunk: Seq::empty(), sent: 0, capacity }
    }

    /// This state with another phase and no chunk in flight.
    pub open spec fn at(self, phase: Phase) -> State {
        State { phase, chunk: Seq::empty(), sent: 0, capacity: self.capacity }
    }

    /// What holds of every state that a session can be in: the read limit is
    /// not zero, a session that writes holds a chunk with bytes still to go,
    /// and a session that does anything else holds none.
    pub open spec fn valid(self) -> bool {
        &&& self.capacity > 0
        &&& self.phase is Writing ==> self.sent < self.chunk.len()
        &&& !(self.phase is Writing) ==> self.chunk.len() == 0 && self.sent == 0
    }

    /// The bytes of the chunk in flight that the destination has not taken.
    pub open spec fn pending(self) -> Seq<u8> {
        self.chunk.skip(self.sent as int)
    }

    /// What the session in this state is waiting for the driver to do.
    pub open spec fn request(self) -> Action {
        match self.phase {
            Phase::Opening => Action::Open,
            Phase::Polling => Action::Poll,
            Phase::Reading(from) => Action::Read { from, max: self.capacity },
            Phase::Writing(to) => Action::Write { to },
            Phase::Closed(_) => Action::Done,
        }
    }

    /// Moving on to `phase` with nothing in flight, and asking for what that
    /// phase needs.
    pub open spec fn enter(self, phase: Phase) -> (State, Action) {
        (self.at(phase), self.at(phase).request())
    }

    /// Ending the session: the one step that asks for the handles' release.
    pub open spec fn close(self, outcome: Outcome) -> (State, Action) {
        (self.at(Phase::Closed(outcome)), Action::Release(outcome))
    }

    /// Staying put and asking again for what is outstanding.
    pub open spec fn stay(self) -> (State, Action) {
        (self, self.request())
    }
}

/// The transition function: the state after `event` and what the driver has to
/// do next.
///
/// An event that does not answer the outstanding request changes nothing. A
/// closed session stays closed whatever is reported.
pub open spec fn next(s: State, event: Event) -> (State, Action) {
    match s.phase {
        Phase::Opening => match event {
            Event::Opened => s.enter(Phase::Polling),
            Event::OpenFailed => s.close(Outcome::DeviceUnavailable),
            _ => s.stay(),
        },
        Phase::Polling => match event {
            Event::Polled { stream, serial } => match decide(
                stream_readiness_of(stream),
                serial_readiness_of(serial),
            ) {
                Decision::Terminate(outcome) => s.close(outcome),
                Decision::Relay(from) => s.enter(Phase::Reading(from)),
                Decision::Idle => s.stay(),
            },
            _ => s.stay(),
        },
        Phase::Reading(from) => match event {
            Event::Read(data) => if data@.len() == 0 {
                s.enter(Phase::Polling)
            } else {
                (
                    State {
                        phase: Phase::Writing(from.opposite()),
                        chunk: data@,
                        sent: 0,
                        capacity: s.capacity,
                    },
                    Action::Write { to: from.opposite() },
                )
            },
            Event::ReadFailed => s.close(failure_of(from)),
            _ => s.stay(),
        },
        Phase::Writing(to) => match event {
            Event::Written(n) => if n == 0 {
                s.close(failure_of(to))
            } else if s.sent + n >= s.chunk.len() {
                s.enter(Phase::Polling)
            } else {
                (State { sent: s.sent + n as nat, ..s }, Action::Write { to })
            },
            Event::WriteFailed => s.close(failure_of(to)),
            _ => s.stay(),
        },
        Phase::Closed(_) => (s, Action::Done),
    }
}

/// One relay session: the state that the driver of a connection keeps.
pub struct Session {
    phase: Phase,
    chunk: Vec<u8>,
    sent: usize,
    capacity: usize,
}

impl View for Session {
    type V = State;

    closed spec fn view(&self) -> State {
        State {
            phase: self.phase,
            chunk: self.chunk@,
            sent: self.sent as nat,
            capacity: self.capacity,
        }
    }
}

impl Session {
    #[verifier::type_invariant]
    spec fn well_formed(self) -> bool {
        self@.valid()
    }

    /// A session that reads up to [`SCRATCH_CAPACITY`] bytes at a time. It
    /// starts by asking for the serial device to be opened.
    pub fn new() -> (session: Session)
        ensures
            session@ == State::initial(SCRATCH_CAPACITY),
    {
        Session { phase: Phase::Opening, chunk: Vec::new(), sent: 0, capacity: SCRATCH_CAPACITY }
    }

    /// A session that reads up to `capacity` bytes at a time, or `None` if
    /// `capacity` is zero.
    pub fn with_capacity(capacity: usize) -> (made: Option<Session>)
        ensures
            capacity == 0 ==> made is None,
            capacity > 0 ==> made is Some && made->0@ == State::initial(capacity),
    {
        if capacity == 0 {
            None
        } else {
            Some(Session { phase: Phase::Opening, chunk: Vec::new(), sent: 0, capacity })
        }
    }

    /// Takes in what the driver reports and says what it has to do next.
    pub fn step(&mut self, event: Event) -> (action: Action)
        ensures
            (final(self)@, action) == next(old(self)@, event),
    {
        proof {
            use_type_invariant(&*self);
        }
        let capacity = self.capacity;
        match self.phase {
            Phase::Opening => match event {
                Event::Opened => self.enter(Phase::Polling),
                Event::OpenFailed => self.close(Outcome::DeviceUnavailable),
                _ => self.request(),
            },
            Phase::Polling => match event {
                Event::Polled { stream, serial } => {
                    match decide(stream_readiness(stream), serial_readiness(serial)) {
                        Decision::Terminate(outcome) => self.close(outcome),
                        Decision::Relay(from) => self.enter(Phase::Reading(from)),
                        Decision::Idle => self.request(),
                    }
                },
                _ => self.request(),
            },
            Phase::Reading(from) => match event {
                Event::Read(data) => {
                    if data.len() == 0 {
                        self.enter(Phase::Polling)
                    } else {
                        let to = from.opposite();
                        *self =
                        Session { phase: Phase::Writing(to), chunk: data, sent: 0, capacity };
                        Action::Write { to }
                    }
                },
                Event::ReadFailed => self.close(failure_of(from)),
                _ => self.request(),
            },
            Phase::Writing(to) => match event {
                Event::Written(n) => {
                    if n == 0 {
                        self.close(failure_of(to))
                    } else if n >= self.chunk.len() - self.sent {
                        self.enter(Phase::Polling)
                    } else {
                        self.sent = self.sent + n;
                        Action::Write { to }
                    }
                },
                Event::WriteFailed => self.close(failure_of(to)),
                _ => self.request(),
            },
            Phase::Closed(_) => Action::Done,
        }
    }

    fn enter(&mut self, phase: Phase) -> (action: Action)
        requires
            !(phase is Writing),
        ensures
            (final(self)@, action) == old(self)@.enter(phase),
    {
        proof {
            use_type_invariant(&*self);
        }
        *self = Session { phase, chunk: Vec::new(), sent: 0, capacity: self.capacity };
        self.request()
    }

    fn close(&mut self, outcome: Outcome) -> (action: Action)
        ensures
            (final(self)@, action) == old(self)@.close(outcome),
    {
        proof {
            use_type_invariant(&*self);
        }
        *self = Session {
            phase: Phase::Closed(outcome),
            chunk: Vec::new(),
            sent: 0,
            capacity: self.capacity,
        };
        Action::Release(outcome)
    }

    /// What the session is waiting for the driver to do. For a closed session
    /// that is `Done`: the release was asked for by the step that closed it.
    pub fn request(&self) -> (action: Action)
        ensures
            action == self@.request(),
    {
        match self.phase {
            Phase::Opening => Action::Open,
            Phase::Polling => Action::Poll,
            Phase::Reading(from) => Action::Read { from, max: self.capacity },
            Phase::Writing(to) => Action::Write { to },
            Phase::Closed(_) => Action::Done,
        }
    }

    /// The bytes that the driver has to write now, in order: what is left of
    /// the chunk in flight. Empty unless the session asked for a write.
    pub fn pending(&self) -> (bytes: &[u8])
        ensures
            bytes@ == self@.pending(),
    {
        proof {
            use_type_invariant(self);
        }
        slice_subrange(self.chunk.as_slice(), self.sent, self.chunk.len())
    }

    /// Where the session stands.
    pub fn phase(&self) -> (phase: Phase)
        ensures
            phase == self@.phase,
    {
        self.phase
    }

    /// The outcome of the session once it is over, `None` while it runs.
    pub fn outcome(&self) -> (outcome: Option<Outcome>)
        ensures
            outcome == match self@.phase {
                Phase::Closed(o) => Some(o),
                _ => None,
            },
    {
        match self.phase {
            Phase::Closed(o) => Some(o),
            _ => None,
        }
    }

    /// The most bytes that the session asks for in one read.
    pub fn capacity(&self) -> (capacity: usize)
        ensures
            capacity == self@.capacity,
    {
        self.capacity
    }
}

} // verus!
