//! The trusted boundary to the OS notification facility.
//!
//! Nothing in this module is proved: it declares the outside types that flow
//! through the detector and wraps the few calls into `notify` and the
//! standard channel. Each wrapper's doc comment names the outside function it
//! relies on. Everything the detector concludes rests on these contracts.

use vstd::prelude::*;

use crate::checker::RegisterOutcome;

verus! {

/// `std::sync::mpsc::Sender`, declared so it can stand in signatures; the
/// watcher owns it as its delivery sink.
#[verifier::external_type_specification]
#[verifier::external_body]
#[verifier::reject_recursive_types(T)]
pub struct ExSender<T>(std::sync::mpsc::Sender<T>);

/// `std::sync::mpsc::Receiver`, declared so it can stand in signatures; the
/// detector holds the consuming end of its notification queue in one.
#[verifier::external_type_specification]
#[verifier::external_body]
#[verifier::reject_recursive_types(T)]
pub struct ExReceiver<T>(std::sync::mpsc::Receiver<T>);

/// `std::sync::mpsc::TryRecvError`, declared with its two variants visible,
/// so that the drain loop can tell an empty queue from a disconnected one.
#[verifier::external_type_specification]
pub struct ExTryRecvError(std::sync::mpsc::TryRecvError);

/// `notify::Event`, declared opaque: the detector records only that a
/// notification arrived, never what it says.
#[verifier::external_type_specification]
#[verifier::external_body]
pub struct ExEvent(notify::Event);

/// `notify::Error`, declared opaque: delivery-level errors are rendered to
/// text at the boundary and classified there.
#[verifier::external_type_specification]
#[verifier::external_body]
pub struct ExError(notify::Error);

/// `notify::INotifyWatcher` (the platform's recommended watcher), declared
/// opaque: the detector keeps it alive so the watch stays registered.
#[verifier::external_type_specification]
#[verifier::external_body]
pub struct ExWatcher(notify::INotifyWatcher);

/// Relies on `std::sync::mpsc::channel`: creates a connected
/// single-producer/single-consumer queue, unbounded and order-preserving.
pub assume_specification<T>[ std::sync::mpsc::channel::<T> ]() -> (r: (
    std::sync::mpsc::Sender<T>,
    std::sync::mpsc::Receiver<T>,
));

/// Relies on `std::sync::mpsc::Receiver::try_recv`: returns the next pending
/// item without blocking, or says whether the queue is empty or its producer
/// side is gone. Which of these comes back depends on what the watcher has
/// delivered, so nothing is promised of the outcome.
pub assume_specification<T>[ std::sync::mpsc::Receiver::<T>::try_recv ](
    rx: &std::sync::mpsc::Receiver<T>,
) -> (r: Result<T, std::sync::mpsc::TryRecvError>);

/// Relies on `notify::INotifyWatcher::new` (its `Watcher` impl): starts the
/// OS watcher with the default configuration and binds its delivery side to
/// the sender. A failure is an OS-level one, handed back as its rendering.
#[verifier::external_body]
pub(crate) fn make_watcher(
    tx: std::sync::mpsc::Sender<Result<notify::Event, notify::Error>>,
) -> (r: Result<notify::INotifyWatcher, String>) {
    match <notify::INotifyWatcher as notify::Watcher>::new(tx, notify::Config::default()) {
        Ok(w) => Ok(w),
        Err(e) => Err(format!("{}", e)),
    }
}

/// Relies on `notify::INotifyWatcher::watch` with
/// `RecursiveMode::NonRecursive`: registers the watch on the path alone. Its
/// source reports a missing path as `notify::ErrorKind::PathNotFound`; each
/// error kind is told apart here and handed back with its rendering.
#[verifier::external_body]
pub(crate) fn watch_nonrecursive(w: &mut notify::INotifyWatcher, path: &str) -> (r:
    RegisterOutcome) {
    let mode = notify::RecursiveMode::NonRecursive;
    match notify::Watcher::watch(w, std::path::Path::new(path), mode) {
        Ok(()) => RegisterOutcome::Registered,
        Err(e) => match &e.kind {
            notify::ErrorKind::PathNotFound => RegisterOutcome::PathMissing(format!("{}", e)),
            notify::ErrorKind::Generic(_) => RegisterOutcome::Failed(format!("{}", e)),
            notify::ErrorKind::Io(_) => RegisterOutcome::Failed(format!("{}", e)),
            notify::ErrorKind::WatchNotFound => RegisterOutcome::Failed(format!("{}", e)),
            notify::ErrorKind::InvalidConfig(_) => RegisterOutcome::Failed(format!("{}", e)),
            notify::ErrorKind::MaxFilesWatch => RegisterOutcome::Failed(format!("{}", e)),
        },
    }
}

/// Relies on `notify::Error`'s `Display` impl: renders a delivery-level error
/// for diagnostics.
#[verifier::external_body]
pub(crate) fn describe_error(e: &notify::Error) -> (r: String) {
    format!("{}", e)
}

} // verus!
