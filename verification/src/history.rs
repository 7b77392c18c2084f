//! What holds of a session over its whole life.
//!
//! A session's life is the sequence of events reported to it. [`run`] replays
//! such a sequence from a fresh session and keeps a [`Ledger`] of the bytes
//! that crossed each end. The proof functions of this module state what every
//! life obeys.

use crate::outcome::{Outcome, Side};
use crate::readiness::{reported, ERROR, HANGUP, INVALID};
use crate::session::{next, Action, Event, Phase, State};
use vstd::prelude::*;

verus! {

/// The bytes that crossed the two ends of a session so far, and how often the
/// session asked for its handles to be released.
pub struct Ledger {
    /// Every byte that the session read from the stream, in order.
    pub from_stream: Seq<u8>,
    /// Every byte that the serial device took from the session, in order.
    pub to_serial: Seq<u8>,
    /// Every byte that the session read from the serial device, in order.
    pub from_serial: Seq<u8>,
    /// Every byte that the stream took from the session, in order.
    pub to_stream: Seq<u8>,
    /// How many times the session asked for a release.
    pub releases: nat,
}

impl Ledger {
    /// The ledger of a session to which nothing has happened.
    pub open spec fn empty() -> Ledger {
        Ledger {
            from_stream: Seq::empty(),
            to_serial: Seq::empty(),
            from_serial: Seq::empty(),
            to_stream: Seq::empty(),
            releases: 0,
        }
    }

    /// The bytes read from `from`.
    pub open spec fn taken(self, from: Side) -> Seq<u8> {
        match from {
            Side::Stream => self.from_stream,
            Side::Serial => self.from_serial,
        }
    }

    /// The bytes that `to` took.
    pub open spec fn given(self, to: Side) -> Seq<u8> {
        match to {
            Side::Stream => self.to_stream,
            Side::Serial => self.to_serial,
        }
    }

    /// This ledger after `bytes` more were read from `from`.
    pub open spec fn take(self, from: Side, bytes: Seq<u8>) -> Ledger {
        match from {
            Side::Stream => Ledger { from_stream: self.from_stream + bytes, ..self },
            Side::Serial => Ledger { from_serial: self.from_serial + bytes, ..self },
        }
    }

    /// This ledger after `to` took `bytes` more.
    pub open spec fn give(self, to: Side, bytes: Seq<u8>) -> Ledger {
        match to {
            Side::Stream => Ledger { to_stream: self.to_stream + bytes, ..self },
            Side::Serial => Ledger { to_serial: self.to_serial + bytes, ..self },
        }
    }
}

/// The bytes that a destination took when it reports `n` bytes written while
/// the session is in state `s`: the first `n` of the pending bytes, or all of
/// them where `n` is more than there are.
pub open spec fn accepted(s: State, n: usize) -> Seq<u8> {
    if n <= s.pending().len() {
        s.pending().take(n as int)
    } else {
        s.pending()
    }
}

/// The bytes on their way to `to` in state `s`: the pending bytes if the
/// session is writing to `to`, none otherwise.
pub open spec fn in_flight(s: State, to: Side) -> Seq<u8> {
    if s.phase == Phase::Writing(to) {
        s.pending()
    } else {
        Seq::empty()
    }
}

/// The ledger after `event` is reported to a session in state `s`. Bytes
/// count as read only when a read was asked for, and as taken only when a
/// write was.
pub open spec fn record(ledger: Ledger, s: State, event: Event) -> Ledger {
    let moved = match (s.phase, event) {
        (Phase::Reading(from), Event::Read(data)) => ledger.take(from, data@),
        (Phase::Writing(to), Event::Written(n)) => ledger.give(to, accepted(s, n)),
        _ => ledger,
    };
    if next(s, event).1 is Release {
        Ledger { releases: moved.releases + 1, ..moved }
    } else {
        moved
    }
}

/// A session part of the way through its life.
pub struct Run {
    /// The state that the session is in.
    pub state: State,
    /// What has crossed its ends.
    pub ledger: Ledger,
}

impl Run {
    /// A session before its first event.
    pub open spec fn start(capacity: usize) -> Run {
        Run { state: State::initial(capacity), ledger: Ledger::empty() }
    }

    /// The run after one more event.
    pub open spec fn after(self, event: Event) -> Run {
        Run { state: next(self.state, event).0, ledger: record(self.ledger, self.state, event) }
    }
}

/// The run of a fresh session with read limit `capacity` to which `events` are
/// reported in order.
pub open spec fn run(capacity: usize, events: Seq<Event>) -> Run
    decreases events.len(),
{
    if events.len() == 0 {
        Run::start(capacity)
    } else {
        run(capacity, events.drop_last()).after(events.last())
    }
}

/// Reporting one more event to a session is one more step of its run: the
/// state and the action that [`next`] gives for the event, from the state that
/// the run had reached.
pub proof fn run_extends_by_step(capacity: usize, events: Seq<Event>, event: Event)
    ensures
        run(capacity, events.push(event)) == run(capacity, events).after(event),
        run(capacity, events.push(event)).state == next(run(capacity, events).state, event).0,
{
    assert(events.push(event).drop_last() =~= events);
}

/// A step from a valid state leads to a valid state.
pub proof fn step_keeps_valid(s: State, event: Event)
    requires
        s.valid(),
    ensures
        next(s, event).0.valid(),
{
}

/// A session is in a valid state all its life.
pub proof fn run_stays_valid(capacity: usize, events: Seq<Event>)
    requires
        capacity > 0,
    ensures
        run(capacity, events).state.valid(),
    decreases events.len(),
{
    if events.len() > 0 {
        run_stays_valid(capacity, events.drop_last());
        step_keeps_valid(run(capacity, events.drop_last()).state, events.last());
    }
}

/// What one direction of a run conserves: the bytes taken by the far end are a
/// prefix of the bytes read from `from`, and in a session that has not ended
/// the two differ by exactly the bytes in flight.
spec fn conserves(r: Run, from: Side) -> bool {
    let to = from.opposite();
    &&& r.ledger.given(to).is_prefix_of(r.ledger.taken(from))
    &&& !(r.state.phase is Closed) ==> r.ledger.given(to) + in_flight(r.state, to)
        == r.ledger.taken(from)
}

proof fn step_conserves(r: Run, event: Event, from: Side)
    requires
        r.state.valid(),
        conserves(r, from),
    ensures
        conserves(r.after(event), from),
{
    let to = from.opposite();
    let s = r.state;
    let given = r.ledger.given(to);
    let after = r.after(event);
    let none = Seq::<u8>::empty();
    match (s.phase, event) {
        (Phase::Reading(source), Event::Read(data)) => {
            // Nothing was in flight, so all that was read had been taken.
            assert(given + none =~= given);
            if source == from {
                assert(given + data@ =~= given + none + data@);
                assert(in_flight(after.state, to) =~= data@);
            }
        },
        (Phase::Writing(dest), Event::Written(n)) => {
            if dest == to {
                // The bytes taken now and the bytes still pending make up
                // what was pending before.
                let pending = s.pending();
                let moved = accepted(s, n);
                let rest = pending.skip(moved.len() as int);
                assert(moved + rest =~= pending);
                assert(given + moved + rest =~= given + pending);
                assert((given + pending).subrange(0, (given + moved).len() as int) =~= given
                    + moved);
                if !(after.state.phase is Closed) {
                    assert(in_flight(after.state, to) =~= rest);
                }
            }
        },
        _ => {},
    }
}

proof fn run_conserves(capacity: usize, events: Seq<Event>, from: Side)
    requires
        capacity > 0,
    ensures
        conserves(run(capacity, events), from),
    decreases events.len(),
{
    if events.len() == 0 {
        assert(Seq::<u8>::empty() + Seq::<u8>::empty() =~= Seq::<u8>::empty());
    } else {
        run_conserves(capacity, events.drop_last(), from);
        run_stays_valid(capacity, events.drop_last());
        step_conserves(run(capacity, events.drop_last()), events.last(), from);
    }
}

/// Stream to serial is lossless and in order. Whatever is reported to a
/// session, the bytes that the serial device has taken are a prefix of the
/// bytes read from the stream: nothing is invented, repeated, dropped from the
/// middle or moved. While the session has not ended, the only bytes read from
/// the stream that the device has not taken are the ones in flight, which are
/// the bytes that the session asks to have written next.
pub proof fn stream_bytes_reach_serial(capacity: usize, events: Seq<Event>)
    requires
        capacity > 0,
    ensures
        ({
            let r = run(capacity, events);
            &&& r.ledger.to_serial.is_prefix_of(r.ledger.from_stream)
            &&& !(r.state.phase is Closed) ==> r.ledger.to_serial + in_flight(
                r.state,
                Side::Serial,
            ) == r.ledger.from_stream
        }),
{
    run_conserves(capacity, events, Side::Stream);
}

/// Serial to stream is lossless and in order: the same as
/// [`stream_bytes_reach_serial`] for the other direction.
pub proof fn serial_bytes_reach_stream(capacity: usize, events: Seq<Event>)
    requires
        capacity > 0,
    ensures
        ({
            let r = run(capacity, events);
            &&& r.ledger.to_stream.is_prefix_of(r.ledger.from_serial)
            &&& !(r.state.phase is Closed) ==> r.ledger.to_stream + in_flight(
                r.state,
                Side::Stream,
            ) == r.ledger.from_serial
        }),
{
    run_conserves(capacity, events, Side::Serial);
}

/// A chunk is written out before anything else is read. A session that asks
/// for a write has bytes pending, and a session that asks for anything else,
/// a read or a readiness check among them, holds no chunk at all.
pub proof fn one_chunk_at_a_time(capacity: usize, events: Seq<Event>)
    requires
        capacity > 0,
    ensures
        ({
            let s = run(capacity, events).state;
            if s.request() is Write {
                s.pending().len() > 0
            } else {
                s.chunk.len() == 0
            }
        }),
{
    run_stays_valid(capacity, events);
}

/// Every write that takes a byte brings the chunk in flight nearer to its
/// end: a session that writes to `to` and hears that `n` bytes were taken, with
/// `n` above zero, has fewer bytes in flight afterwards, and it asks for the
/// rest to be written or, once none is left, for the next readiness check. So
/// a destination that keeps taking bytes has the whole chunk after no more
/// writes than the chunk has bytes.
pub proof fn writing_makes_progress(s: State, to: Side, n: usize)
    requires
        s.valid(),
        s.phase == Phase::Writing(to),
        n > 0,
    ensures
        ({
            let (after, action) = next(s, Event::Written(n));
            &&& in_flight(after, to).len() < in_flight(s, to).len()
            &&& in_flight(after, to) == in_flight(s, to).skip(accepted(s, n).len() as int)
            &&& action == if in_flight(after, to).len() > 0 {
                Action::Write { to }
            } else {
                Action::Poll
            }
        }),
{
    let (after, action) = next(s, Event::Written(n));
    if s.sent + n >= s.chunk.len() {
        assert(in_flight(after, to) =~= Seq::<u8>::empty());
        assert(in_flight(s, to).skip(accepted(s, n).len() as int) =~= Seq::<u8>::empty());
    } else {
        assert(in_flight(after, to) =~= in_flight(s, to).skip(n as int));
    }
}

/// A hang-up or an error on the stream ends the session at the next readiness
/// check: a polling session to which such a check is reported closes with
/// `PeerDisconnected` and asks for the release of its handles, whatever the
/// serial device reports and whatever data is waiting.
pub proof fn peer_failure_ends_session(s: State, stream: i16, serial: i16)
    requires
        s.phase == Phase::Polling,
        reported(stream, ERROR) || reported(stream, HANGUP),
    ensures
        ({
            let (after, action) = next(s, Event::Polled { stream, serial });
            &&& after.phase == Phase::Closed(Outcome::PeerDisconnected)
            &&& after.pending() == Seq::<u8>::empty()
            &&& action == Action::Release(Outcome::PeerDisconnected)
        }),
{
    assert(s.at(Phase::Closed(Outcome::PeerDisconnected)).pending() =~= Seq::<u8>::empty());
}

/// An error, a hang-up or a closed descriptor on the serial device ends the
/// session at the next readiness check: a polling session to which such a check
/// is reported closes and asks for the release of its handles. The outcome is
/// `DeviceDisconnected` unless the stream failed in the same check, which
/// comes first.
pub proof fn device_failure_ends_session(s: State, stream: i16, serial: i16)
    requires
        s.phase == Phase::Polling,
        reported(serial, ERROR) || reported(serial, HANGUP) || reported(serial, INVALID),
    ensures
        ({
            let (after, action) = next(s, Event::Polled { stream, serial });
            let outcome = if reported(stream, ERROR) || reported(stream, HANGUP) {
                Outcome::PeerDisconnected
            } else {
                Outcome::DeviceDisconnected
            };
            &&& after.phase == Phase::Closed(outcome)
            &&& after.pending() == Seq::<u8>::empty()
            &&& action == Action::Release(outcome)
        }),
{
    assert(s.at(Phase::Closed(Outcome::PeerDisconnected)).pending() =~= Seq::<u8>::empty());
    assert(s.at(Phase::Closed(Outcome::DeviceDisconnected)).pending() =~= Seq::<u8>::empty());
}

/// Whether `event` says how the opening of the serial device went.
pub open spec fn answers_open(event: Event) -> bool {
    event is Opened || event is OpenFailed
}

/// A session has one serial device at most: it asks for the device to be
/// opened until it hears how that went, and never again. It is in its opening
/// phase, the only one in which it asks, exactly as long as no event of its
/// life was `Opened` or `OpenFailed`.
pub proof fn device_is_opened_once(capacity: usize, events: Seq<Event>)
    ensures
        run(capacity, events).state.request() is Open <==> run(
            capacity,
            events,
        ).state.phase is Opening,
        run(capacity, events).state.phase is Opening <==> forall|i: int|
            0 <= i < events.len() ==> !answers_open(#[trigger] events[i]),
    decreases events.len(),
{
    if events.len() > 0 {
        let earlier = events.drop_last();
        device_is_opened_once(capacity, earlier);
        assert(forall|i: int| 0 <= i < earlier.len() ==> earlier[i] == events[i]);
        if run(capacity, events).state.phase is Opening {
            assert(run(capacity, earlier).state.phase is Opening);
            assert(!answers_open(events.last()));
        } else if run(capacity, earlier).state.phase is Opening {
            assert(answers_open(events[events.len() - 1]));
        } else {
            let i = choose|i: int| 0 <= i < earlier.len() && answers_open(#[trigger] earlier[i]);
            assert(answers_open(events[i]));
        }
    }
}

/// A closed session is inert: whatever is reported to it, it stays as it is,
/// asks for nothing, and no byte is counted as read or written.
pub proof fn closed_is_final(s: State, ledger: Ledger, event: Event)
    requires
        s.phase is Closed,
    ensures
        next(s, event) == (s, Action::Done),
        record(ledger, s, event) == ledger,
{
}

/// A session asks for the release of its handles exactly when it closes, so
/// at most once in its life: the count is one for a closed session and zero
/// for any other.
pub proof fn released_once(capacity: usize, events: Seq<Event>)
    ensures
        run(capacity, events).ledger.releases == if run(capacity, events).state.phase is Closed {
            1nat
        } else {
            0nat
        },
    decreases events.len(),
{
    if events.len() > 0 {
        released_once(capacity, events.drop_last());
    }
}

/// One of two sessions that run side by side.
pub enum Lane {
    /// The first session.
    First,
    /// The second session.
    Second,
}

/// Two sessions part of the way through their lives.
pub struct Pair {
    /// The run of the first session.
    pub first: Run,
    /// The run of the second session.
    pub second: Run,
}

/// The runs of two fresh sessions to which `events` are reported in order,
/// each event to the session that its lane names.
pub open spec fn run_pair(
    first_capacity: usize,
    second_capacity: usize,
    events: Seq<(Lane, Event)>,
) -> Pair
    decreases events.len(),
{
    if events.len() == 0 {
        Pair { first: Run::start(first_capacity), second: Run::start(second_capacity) }
    } else {
        let before = run_pair(first_capacity, second_capacity, events.drop_last());
        match events.last().0 {
            Lane::First => Pair { first: before.first.after(events.last().1), ..before },
            Lane::Second => Pair { second: before.second.after(events.last().1), ..before },
        }
    }
}

/// The events of `events` that are reported to the session in `lane`, in
/// order.
pub open spec fn lane_events(events: Seq<(Lane, Event)>, lane: Lane) -> Seq<Event>
    decreases events.len(),
{
    if events.len() == 0 {
        Seq::empty()
    } else if events.last().0 == lane {
        lane_events(events.drop_last(), lane).push(events.last().1)
    } else {
        lane_events(events.drop_last(), lane)
    }
}

/// Sessions do not see each other. However the events of two sessions are
/// interleaved, each session ends in the state, and with the ledger, that its
/// own events alone lead to: no byte read for one session is ever written or
/// counted by the other.
pub proof fn sessions_are_isolated(
    first_capacity: usize,
    second_capacity: usize,
    events: Seq<(Lane, Event)>,
)
    ensures
        run_pair(first_capacity, second_capacity, events).first == run(
            first_capacity,
            lane_events(events, Lane::First),
        ),
        run_pair(first_capacity, second_capacity, events).second == run(
            second_capacity,
            lane_events(events, Lane::Second),
        ),
    decreases events.len(),
{
    if events.len() > 0 {
        let earlier = events.drop_last();
        let event = events.last().1;
        sessions_are_isolated(first_capacity, second_capacity, earlier);
        match events.last().0 {
            Lane::First => {
                let own = lane_events(earlier, Lane::First);
                assert(own.push(event).drop_last() =~= own);
            },
            Lane::Second => {
                let own = lane_events(earlier, Lane::Second);
                assert(own.push(event).drop_last() =~= own);
            },
        }
    }
}

} // verus!
