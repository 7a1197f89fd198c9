//! The transport core of a RADIUS client: one request datagram out, one
//! response datagram back, over UDP.
//!
//! The crate performs no I/O. It decides what a single exchange does next and
//! what its outcome is; a driver owns the socket, the timers and the packet
//! codec, carries out each action and reports what happened.

pub mod client;
pub mod endpoint;
pub mod error;
pub mod exchange;
pub mod laws;
