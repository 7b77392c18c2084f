//! The decision core of a bridge between a TCP stream and a serial device.
//!
//! A bridge relays raw bytes both ways between one TCP connection and one
//! serial device until either of them goes away. This library decides; it
//! performs no I/O. A driver owns the two handles, carries out the
//! [`session::Action`] that a [`session::Session`] asks for, and reports what
//! happened as a [`session::Event`].
//!
//! - [`readiness`] reads the event bits that a readiness check returns.
//! - [`decision`] ranks errors and data after one round of checks.
//! - [`outcome`] names the two ends and the reasons for which a session ends.
//! - [`session`] is the state machine of one session.
//! - [`history`] states and proves what every session obeys over its life:
//!   bytes arrive complete and in order, a failure ends the session, handles
//!   are released once, and sessions do not see each other.
//! - [`config`] is the record that a bridge is started with.

pub mod config;
pub mod decision;
pub mod history;
pub mod outcome;
pub mod readiness;
pub mod session;
