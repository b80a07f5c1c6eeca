//! The error taxonomy of the bridge.

use vstd::prelude::*;

verus! {

/// Every fault the bridge distinguishes.
///
/// `IoError`, `PathNotFound`, `WatchSetupError` and `WatcherFatal` are
/// fatal to a session. `ConnectionClosed` is the peer ending the stream
/// and is treated as an implicit stop, never surfaced as a failure.
/// `MalformedEvent` and `MalformedCommand` are decode-time faults: a
/// malformed command is discarded and the session continues.
#[derive(Clone, Copy, Debug, PartialEq, Eq, Structural)]
pub enum ErrorKind {
    IoError,
    ConnectionClosed,
    PathNotFound,
    WatchSetupError,
    WatcherFatal,
    MalformedEvent,
    MalformedCommand,
}

} // verus!
