//! The core of a transparent TCP relay, free of I/O.
//!
//! A relay takes one accepted client connection, dials a fixed remote target and
//! shuttles bytes both ways until either way ends. This crate holds the decisions
//! of that lifecycle as state machines: a driver performs the I/O that a machine
//! asks for and hands back what happened, and the machine says what comes next.
//!
//! - [`copier`]: one direction of a relay, from a source to a sink.
//! - [`relay`]: the pair of connections, from the dial to the teardown.
//! - [`fleet`]: many relays side by side, and the accept loop that starts them.
//! - [`outcome`]: what a copy and a relay report when they end.

pub mod outcome;
pub mod copier;
pub mod relay;
pub mod fleet;
