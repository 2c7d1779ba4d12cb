//! Deterministic tests of the drain verdict and of error classification.

use stl_view::checker::{register_to_error, RegisterOutcome};
use stl_view::drain::{drain_all, DrainEnd, QueueItem};
use stl_view::errors::ErrorKind;

#[test]
fn empty_drain_is_false() {
    let items: Vec<QueueItem> = vec![];
    assert_eq!(drain_all(&items, DrainEnd::Empty).unwrap(), false);
}

#[test]
fn single_change_is_true() {
    let items = vec![QueueItem::Change];
    assert_eq!(drain_all(&items, DrainEnd::Empty).unwrap(), true);
}

#[test]
fn many_changes_coalesce_to_one_true() {
    let items = vec![QueueItem::Change; 5];
    assert_eq!(drain_all(&items, DrainEnd::Empty).unwrap(), true);
}

#[test]
fn fault_stops_drain_with_io_error() {
    let items = vec![QueueItem::Change, QueueItem::Fault("boom".to_owned())];
    let e = drain_all(&items, DrainEnd::Empty).unwrap_err();
    assert_eq!(e.kind, ErrorKind::Io);
    assert_eq!(e.message, "boom");
}

#[test]
fn first_fault_is_the_one_surfaced() {
    let items = vec![
        QueueItem::Fault("first".to_owned()),
        QueueItem::Change,
        QueueItem::Fault("second".to_owned()),
    ];
    let e = drain_all(&items, DrainEnd::Empty).unwrap_err();
    assert_eq!(e.kind, ErrorKind::Io);
    assert_eq!(e.message, "first");
}

#[test]
fn disconnected_queue_is_the_lifecycle_fault() {
    let items: Vec<QueueItem> = vec![];
    let e = drain_all(&items, DrainEnd::Disconnected).unwrap_err();
    assert_eq!(e.kind, ErrorKind::QueueDisconnected);
    assert_eq!(e.message, "notification queue disconnected");
}

#[test]
fn changes_before_disconnect_do_not_soften_the_fault() {
    let items = vec![QueueItem::Change, QueueItem::Change];
    let e = drain_all(&items, DrainEnd::Disconnected).unwrap_err();
    assert_eq!(e.kind, ErrorKind::QueueDisconnected);
}

#[test]
fn successful_registration_is_no_error() {
    assert!(register_to_error(RegisterOutcome::Registered).is_none());
}

#[test]
fn missing_path_maps_to_path_not_found() {
    let e = register_to_error(RegisterOutcome::PathMissing("no such file".to_owned())).unwrap();
    assert_eq!(e.kind, ErrorKind::PathNotFound);
    assert_eq!(e.message, "no such file");
}

#[test]
fn other_registration_failure_maps_to_io() {
    let e = register_to_error(RegisterOutcome::Failed("watch limit".to_owned())).unwrap();
    assert_eq!(e.kind, ErrorKind::Io);
    assert_eq!(e.message, "watch limit");
}
