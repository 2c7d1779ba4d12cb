//! Watches a single filesystem path and answers, synchronously and without
//! blocking, whether it has changed since the previous check.
//!
//! The detector bridges an asynchronous, callback-driven filesystem watch into
//! a per-frame poll: an OS-level watcher delivers notifications into a queue,
//! and each poll drains that queue completely, collapsing everything pending
//! into a single boolean verdict.

pub mod checker;
pub mod drain;
pub mod errors;
mod sys;
