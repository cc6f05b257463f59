//! Decision logic of a watchdog-petting daemon.
//!
//! The daemon toggles a GPIO output in a fixed duty cycle for as long as a
//! supervised application keeps sending heartbeat datagrams, and stops when
//! the heartbeats stop or a termination signal arrives. Everything here is
//! free of I/O: each component says what has to be done next, the caller
//! does it and reports back what happened.

pub mod span;
pub mod schedule;
pub mod line;
pub mod petter;
pub mod pingee;
pub mod signal;
pub mod clock;
pub mod sim;
pub mod reactor;
pub mod invariants;
