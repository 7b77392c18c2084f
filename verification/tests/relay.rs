use nix::poll::PollFlags;
use serial_bridge::outcome::{Outcome, Side};
use serial_bridge::session::{Action, Event, Session};

/// The two ends of a bridge, played from memory: what each end still has to
/// send, what it has received, and how many bytes it takes per write.
struct Wires {
    stream_out: Vec<u8>,
    serial_out: Vec<u8>,
    stream_in: Vec<u8>,
    serial_in: Vec<u8>,
    write_size: usize,
    releases: usize,
}

impl Wires {
    fn new(from_client: &[u8], from_device: &[u8], write_size: usize) -> Wires {
        Wires {
            stream_out: from_client.to_vec(),
            serial_out: from_device.to_vec(),
            stream_in: Vec::new(),
            serial_in: Vec::new(),
            write_size,
            releases: 0,
        }
    }

    fn bits(waiting: &[u8]) -> i16 {
        if waiting.is_empty() {
            0
        } else {
            PollFlags::POLLIN.bits()
        }
    }

    /// Carries out `action` and says what happened; `None` once the session is over.
    fn perform(&mut self, action: Action, session: &Session) -> Option<Event> {
        match action {
            Action::Open => Some(Event::Opened),
            Action::Poll => Some(Event::Polled {
                stream: Wires::bits(&self.stream_out),
                serial: Wires::bits(&self.serial_out),
            }),
            Action::Read { from, max } => {
                let source = match from {
                    Side::Stream => &mut self.stream_out,
                    Side::Serial => &mut self.serial_out,
                };
                let n = max.min(source.len());
                Some(Event::Read(source.drain(..n).collect()))
            }
            Action::Write { to } => {
                let bytes = session.pending();
                let n = self.write_size.min(bytes.len());
                match to {
                    Side::Stream => self.stream_in.extend_from_slice(&bytes[..n]),
                    Side::Serial => self.serial_in.extend_from_slice(&bytes[..n]),
                }
                Some(Event::Written(n))
            }
            Action::Release(_) => {
                self.releases += 1;
                None
            }
            Action::Done => None,
        }
    }
}

/// Drives a session until both ends have nothing left to send.
fn relay_all(capacity: usize, from_client: &[u8], from_device: &[u8], write_size: usize) -> Wires {
    let mut wires = Wires::new(from_client, from_device, write_size);
    let mut session = Session::with_capacity(capacity).unwrap();
    let mut action = session.request();
    let mut rounds = 0;
    loop {
        let idle = action == Action::Poll
            && wires.stream_out.is_empty()
            && wires.serial_out.is_empty();
        if idle {
            break;
        }
        let event = wires.perform(action, &session).unwrap();
        action = session.step(event);
        rounds += 1;
        assert!(rounds < 100_000);
    }
    assert_eq!(session.outcome(), None);
    assert!(session.pending().is_empty());
    wires
}

fn pattern(len: usize, seed: u8) -> Vec<u8> {
    let mut bytes = Vec::new();
    let mut value = seed;
    for _ in 0..len {
        bytes.push(value);
        value = value.wrapping_mul(31).wrapping_add(7);
    }
    bytes
}

#[test]
fn stream_bytes_arrive_in_order_and_once() {
    let sent = pattern(10_000, 3);
    let wires = relay_all(4096, &sent, b"", 4096);
    assert_eq!(wires.serial_in, sent);
    assert!(wires.stream_in.is_empty());
}

#[test]
fn serial_bytes_arrive_in_order_and_once() {
    let sent = pattern(10_000, 5);
    let wires = relay_all(4096, b"", &sent, 4096);
    assert_eq!(wires.stream_in, sent);
    assert!(wires.serial_in.is_empty());
}

#[test]
fn both_directions_are_lossless_with_short_writes() {
    let from_client = pattern(1_000, 11);
    let from_device = pattern(777, 13);
    for write_size in [1, 2, 3, 7, 64] {
        for capacity in [1, 5, 64, 4096] {
            let wires = relay_all(capacity, &from_client, &from_device, write_size);
            assert_eq!(wires.serial_in, from_client);
            assert_eq!(wires.stream_in, from_device);
            assert_eq!(wires.releases, 0);
        }
    }
}

#[test]
fn nothing_sent_means_nothing_received() {
    let wires = relay_all(4096, b"", b"", 4096);
    assert!(wires.serial_in.is_empty());
    assert!(wires.stream_in.is_empty());
}

#[test]
fn what_reached_the_device_is_a_prefix_when_the_device_fails() {
    let sent = pattern(100, 17);
    let mut wires = Wires::new(&sent, b"", 8);
    let mut session = Session::with_capacity(32).unwrap();
    let mut action = session.request();
    let mut writes = 0;
    let outcome = loop {
        if let Action::Release(outcome) = action {
            wires.releases += 1;
            break outcome;
        }
        let event = match action {
            Action::Write { .. } if writes == 5 => Event::WriteFailed,
            _ => wires.perform(action, &session).unwrap(),
        };
        if matches!(action, Action::Write { .. }) {
            writes += 1;
        }
        action = session.step(event);
    };
    assert_eq!(outcome, Outcome::DeviceDisconnected);
    assert_eq!(wires.serial_in, sent[..40]);
    assert_eq!(wires.releases, 1);
    assert_eq!(session.step(Event::Written(8)), Action::Done);
    assert!(session.pending().is_empty());
}

#[test]
fn interleaved_sessions_deliver_only_their_own_bytes() {
    let for_a = pattern(300, 19);
    let for_b = pattern(300, 23);
    let mut wires_a = Wires::new(&for_a, b"", 5);
    let mut wires_b = Wires::new(&for_b, b"", 9);
    let mut a = Session::with_capacity(16).unwrap();
    let mut b = Session::with_capacity(32).unwrap();
    let mut action_a = a.request();
    let mut action_b = b.request();
    for _ in 0..2_000 {
        let event = wires_a.perform(action_a, &a).unwrap();
        action_a = a.step(event);
        let event = wires_b.perform(action_b, &b).unwrap();
        action_b = b.step(event);
        let event = wires_b.perform(action_b, &b).unwrap();
        action_b = b.step(event);
    }
    assert_eq!(wires_a.serial_in, for_a);
    assert_eq!(wires_b.serial_in, for_b);
    assert!(wires_a.stream_in.is_empty());
    assert!(wires_b.stream_in.is_empty());
}
