//! Verified core of a filesystem-watch bridge: a length-prefixed frame
//! codec, a binary change-event model, an in-band control channel, and
//! the session lifecycle state machine that ties them together.
//!
//! All socket and filesystem-notification I/O lives outside this crate;
//! the functions here compute frames, encode and decode events and
//! commands, and decide state transitions, on plain byte values.

pub mod control;
pub mod errors;
pub mod event;
pub mod frame;
pub mod session;
pub mod wire;
