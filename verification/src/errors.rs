//! The detector's error taxonomy.

use vstd::prelude::*;

verus! {

/// What went wrong with a watch.
///
/// `PathNotFound` and `Io` are ordinary, reportable errors: the first arises
/// only when a watch is registered on a path that does not exist, the second
/// covers every other OS-level failure, at registration time or during
/// delivery. `QueueDisconnected` is different in character: it means the
/// producing side of the notification queue vanished while the detector was
/// still polling, which cannot happen while the watch handle is alive. It is
/// kept as its own kind, never mixed with `Io`, so that callers can treat it
/// as the lifecycle fault it is (abort with a diagnostic) rather than as an
/// environmental condition to report.
#[derive(Clone, Copy, Debug, PartialEq, Eq, Structural)]
pub enum ErrorKind {
    /// The watched path did not exist when the watch was registered.
    PathNotFound,
    /// The OS notification facility failed, at registration or during delivery.
    Io,
    /// The notification queue's producer was torn down while polling continued.
    QueueDisconnected,
}

/// A watch failure: its kind, and a diagnostic text for human eyes.
///
/// Contracts speak of `kind` and `message`; the message carries whatever the
/// OS facility said and has no meaning beyond diagnostics.
#[derive(Debug)]
pub struct WatchError {
    pub kind: ErrorKind,
    pub message: String,
}

} // verus!
