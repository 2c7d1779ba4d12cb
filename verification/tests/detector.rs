//! Tests against the live OS notification facility, on temporary files.
//!
//! Delivery is asynchronous, so these tests poll with deadlines: a change is
//! awaited for a while, and "no more changes" means the detector answered
//! `false` for a sustained quiet interval.

use std::io::Write;
use std::time::{Duration, Instant};

use stl_view::checker::FileRevisions;
use stl_view::errors::ErrorKind;

fn pause(ms: u64) {
    let start = Instant::now();
    while start.elapsed() < Duration::from_millis(ms) {
        std::hint::spin_loop();
    }
}

fn poll_until_change(watch: &mut FileRevisions, deadline_ms: u64) -> bool {
    let start = Instant::now();
    loop {
        if watch.changed().unwrap() {
            return true;
        }
        if start.elapsed() >= Duration::from_millis(deadline_ms) {
            return false;
        }
        pause(5);
    }
}

/// Polls until the detector has answered `false` for `quiet_ms` in a row;
/// gives up after `deadline_ms`.
fn settle(watch: &mut FileRevisions, quiet_ms: u64, deadline_ms: u64) -> bool {
    let start = Instant::now();
    let mut quiet_since = Instant::now();
    loop {
        if watch.changed().unwrap() {
            quiet_since = Instant::now();
        } else if quiet_since.elapsed() >= Duration::from_millis(quiet_ms) {
            return true;
        }
        if start.elapsed() >= Duration::from_millis(deadline_ms) {
            return false;
        }
        pause(5);
    }
}

#[test]
fn initial_poll_reports_no_change() {
    let mut file = tempfile::NamedTempFile::new().unwrap();
    file.write_all(b"solid mesh\n").unwrap();
    file.flush().unwrap();
    let path = file.path().to_str().unwrap().to_owned();
    let mut watch = FileRevisions::from_path(&path).unwrap();
    assert_eq!(watch.changed().unwrap(), false);
}

#[test]
fn empty_polls_are_idempotent() {
    let mut file = tempfile::NamedTempFile::new().unwrap();
    file.write_all(b"solid mesh\n").unwrap();
    file.flush().unwrap();
    let path = file.path().to_str().unwrap().to_owned();
    let mut watch = FileRevisions::from_path(&path).unwrap();
    for _ in 0..50 {
        assert_eq!(watch.changed().unwrap(), false);
    }
}

#[test]
fn write_is_reported_once_then_quiet() {
    let mut file = tempfile::NamedTempFile::new().unwrap();
    file.write_all(b"solid mesh\n").unwrap();
    file.flush().unwrap();
    let path = file.path().to_str().unwrap().to_owned();
    let mut watch = FileRevisions::from_path(&path).unwrap();
    assert_eq!(watch.changed().unwrap(), false);

    file.write_all(b"endsolid\n").unwrap();
    file.flush().unwrap();
    assert!(poll_until_change(&mut watch, 10_000), "the write was never reported");
    assert!(settle(&mut watch, 300, 10_000), "the detector kept reporting changes");
    assert_eq!(watch.changed().unwrap(), false);
}

#[test]
fn writes_before_a_poll_coalesce() {
    let mut file = tempfile::NamedTempFile::new().unwrap();
    file.write_all(b"solid mesh\n").unwrap();
    file.flush().unwrap();
    let path = file.path().to_str().unwrap().to_owned();
    let mut watch = FileRevisions::from_path(&path).unwrap();

    for i in 0..5 {
        file.write_all(format!("facet {}\n", i).as_bytes()).unwrap();
        file.flush().unwrap();
    }
    pause(500);
    // One poll collapses the whole backlog into a single verdict.
    assert_eq!(watch.changed().unwrap(), true);
    assert!(settle(&mut watch, 300, 10_000), "the detector kept reporting changes");
    assert_eq!(watch.changed().unwrap(), false);
}

#[test]
fn missing_path_fails_with_path_not_found() {
    match FileRevisions::from_path("/no/such/directory/mesh.stl") {
        Ok(_) => panic!("a watch on a missing path was registered"),
        Err(e) => assert_eq!(e.kind, ErrorKind::PathNotFound),
    }
}

#[test]
fn dropping_the_detector_ends_the_watch() {
    let mut file = tempfile::NamedTempFile::new().unwrap();
    file.write_all(b"solid mesh\n").unwrap();
    file.flush().unwrap();
    let path = file.path().to_str().unwrap().to_owned();
    let watch = FileRevisions::from_path(&path).unwrap();
    drop(watch);

    // Activity after destruction is delivered nowhere; a fresh detector on the
    // same path starts clean and sees none of it.
    file.write_all(b"written to no listener\n").unwrap();
    file.flush().unwrap();
    pause(300);
    let mut watch = FileRevisions::from_path(&path).unwrap();
    assert_eq!(watch.changed().unwrap(), false);
}
