//! The change detector: a watch on one path, polled once per frame.

use vstd::prelude::*;

use crate::drain::{
    drain_verdict, lemma_drain_changes, lemma_drain_changes_then_fault, result_kind, DrainEnd,
    QueueItem,
};
use crate::errors::{ErrorKind, WatchError};
use crate::sys;

verus! {

/// What the OS notification facility answered when a watch was registered:
/// the watch is in place, the path was missing, or some other OS-level
/// failure occurred, the latter two with the facility's diagnostic text.
#[derive(Debug)]
pub enum RegisterOutcome {
    Registered,
    PathMissing(String),
    Failed(String),
}

/// Maps a registration outcome to the detector's error taxonomy: a missing
/// path is `PathNotFound`, every other failure `Io`, each keeping its
/// diagnostic text; a registration that succeeded is no error at all.
pub fn register_to_error(outcome: RegisterOutcome) -> (r: Option<WatchError>)
    ensures
        match outcome {
            RegisterOutcome::Registered => r is None,
            RegisterOutcome::PathMissing(m) => r matches Some(e) && e.kind
                == ErrorKind::PathNotFound && e.message == m,
            RegisterOutcome::Failed(m) => r matches Some(e) && e.kind == ErrorKind::Io
                && e.message == m,
        },
{
    match outcome {
        RegisterOutcome::Registered => None,
        RegisterOutcome::PathMissing(m) => Some(
            WatchError { kind: ErrorKind::PathNotFound, message: m },
        ),
        RegisterOutcome::Failed(m) => Some(WatchError { kind: ErrorKind::Io, message: m }),
    }
}

/// A live watch on one filesystem path, polled for changes.
///
/// It owns the OS-level watch registration and the consuming end of the
/// notification queue the watcher delivers into. Dropping it deregisters the
/// watch and stops delivery. At most one detector should be bound to a given
/// path at a time; nothing enforces that, it is the caller's responsibility.
pub struct FileRevisions {
    rx: std::sync::mpsc::Receiver<Result<notify::Event, notify::Error>>,
    _watcher: notify::INotifyWatcher,
}

impl FileRevisions {
    /// Begins watching `filename`, which must exist at call time, and returns
    /// the detector. No historical events are delivered: only changes after
    /// this call can be seen by [`Self::changed`].
    ///
    /// Construction fails only with `PathNotFound` (the path does not exist)
    /// or `Io` (any other OS-level registration failure); on failure nothing
    /// keeps watching. The split between the two kinds is exact, see
    /// [`register_to_error`].
    pub fn from_path(filename: &str) -> (r: Result<FileRevisions, WatchError>)
        ensures
            r matches Err(e) ==> e.kind == ErrorKind::PathNotFound || e.kind == ErrorKind::Io,
    {
        let (tx, rx) = std::sync::mpsc::channel();
        let mut watcher = match sys::make_watcher(tx) {
            Ok(w) => w,
            Err(m) => {
                return Err(WatchError { kind: ErrorKind::Io, message: m });
            },
        };
        let outcome = sys::watch_nonrecursive(&mut watcher, filename);
        match register_to_error(outcome) {
            None => Ok(FileRevisions { rx, _watcher: watcher }),
            Some(e) => Err(e),
        }
    }

    /// Answers whether the watched path has changed since the previous call,
    /// without blocking: the notification queue is drained completely in one
    /// pass, in delivery order, and everything pending collapses into one
    /// verdict. With no pending notifications the answer is `false`; any
    /// number of pending change notifications is `true` once; the first
    /// delivery-level fault stops the drain with an `Io` error; a
    /// disconnected queue, impossible while the watch handle is alive, is the
    /// distinct `QueueDisconnected` fault, never `Io`.
    ///
    /// The verdict is exactly [`drain_verdict`] of what this call drained:
    /// which items those are depends on the filesystem, so the contract binds
    /// the result to *some* drained sequence, and the laws in [`crate::drain`]
    /// pin the verdict for each shape that sequence can take.
    pub fn changed(&mut self) -> (r: Result<bool, WatchError>)
        ensures
            r matches Err(e) ==> e.kind == ErrorKind::Io || e.kind == ErrorKind::QueueDisconnected,
            r matches Err(e) ==> (e.kind == ErrorKind::QueueDisconnected ==> e.message@
                == "notification queue disconnected"@),
            exists|items: Seq<QueueItem>, end: DrainEnd| result_kind(r) == #[trigger] drain_verdict(
                items,
                end,
                false,
            ),
    {
        let mut seen = false;
        let ghost mut drained: Seq<QueueItem> = Seq::empty();
        // Verus asks every loop for a termination measure, so the pass carries
        // one: a fuel counter far beyond any backlog a queue could hold. Were
        // it ever to run out, the items drained so far still make the verdict.
        let mut fuel: usize = usize::MAX;
        while fuel > 0
            invariant
                seen == (drained.len() > 0),
                forall|j: int| 0 <= j < drained.len() ==> drained[j] is Change,
            decreases fuel,
        {
            fuel = fuel - 1;
            match self.rx.try_recv() {
                Ok(Ok(_event)) => {
                    proof {
                        drained = drained.push(QueueItem::Change);
                    }
                    seen = true;
                },
                Ok(Err(e)) => {
                    let message = sys::describe_error(&e);
                    let ghost msg = message;
                    proof {
                        lemma_drain_changes_then_fault(drained, msg, DrainEnd::Empty, false);
                    }
                    let r = Err(WatchError { kind: ErrorKind::Io, message });
                    proof {
                        assert(result_kind(r) == drain_verdict(
                            drained.push(QueueItem::Fault(msg)),
                            DrainEnd::Empty,
                            false,
                        ));
                    }
                    return r;
                },
                Err(std::sync::mpsc::TryRecvError::Empty) => {
                    proof {
                        lemma_drain_changes(drained, DrainEnd::Empty, false);
                        assert(result_kind(Ok::<bool, WatchError>(seen)) == drain_verdict(
                            drained,
                            DrainEnd::Empty,
                            false,
                        ));
                    }
                    return Ok(seen);
                },
                Err(std::sync::mpsc::TryRecvError::Disconnected) => {
                    proof {
                        lemma_drain_changes(drained, DrainEnd::Disconnected, false);
                    }
                    let r = Err(
                        WatchError {
                            kind: ErrorKind::QueueDisconnected,
                            message: "notification queue disconnected".to_owned(),
                        },
                    );
                    proof {
                        assert(result_kind(r) == drain_verdict(
                            drained,
                            DrainEnd::Disconnected,
                            false,
                        ));
                    }
                    return r;
                },
            }
        }
        proof {
            lemma_drain_changes(drained, DrainEnd::Empty, false);
            assert(result_kind(Ok::<bool, WatchError>(seen)) == drain_verdict(
                drained,
                DrainEnd::Empty,
                false,
            ));
        }
        Ok(seen)
    }
}

} // verus!
