//! Draining the notification queue, and the laws the drain obeys.
//!
//! Each poll visits every pending notification in delivery order and returns a
//! single answer: `true` when a change notification was pending, `false` when
//! the queue was empty, and the first delivery-level fault as an error. The
//! functions here speak of the queue's contents as a sequence of
//! [`QueueItem`]s, so each statement holds for whatever the watcher
//! delivered.

use vstd::prelude::*;

use crate::errors::{ErrorKind, WatchError};

verus! {

/// One pending notification, as the detector sees it: either a change to the
/// watched path, or a delivery-level error with its diagnostic text.
#[derive(Clone, Debug, PartialEq)]
pub enum QueueItem {
    Change,
    Fault(String),
}

/// How a drain pass came to the end of the pending items: the queue reported
/// itself empty (the normal steady state), or its producing side was gone.
#[derive(Clone, Copy, Debug, PartialEq, Eq, Structural)]
pub enum DrainEnd {
    Empty,
    Disconnected,
}

/// The verdict of draining `items` in delivery order and then seeing `end`,
/// given that `seen` changes were already drained: a change notification
/// records that something changed and draining goes on; the first fault stops
/// the drain with an I/O error; an exhausted queue yields the flag; a
/// disconnected queue is the lifecycle fault.
pub open spec fn drain_verdict(items: Seq<QueueItem>, end: DrainEnd, seen: bool) -> Result<
    bool,
    ErrorKind,
>
    decreases items.len(),
{
    if items.len() == 0 {
        match end {
            DrainEnd::Empty => Ok(seen),
            DrainEnd::Disconnected => Err(ErrorKind::QueueDisconnected),
        }
    } else {
        match items[0] {
            QueueItem::Change => drain_verdict(items.skip(1), end, true),
            QueueItem::Fault(_) => Err(ErrorKind::Io),
        }
    }
}

/// The diagnostic text of the first fault among the pending items, if any:
/// the one a drain pass stops at.
pub open spec fn first_fault(items: Seq<QueueItem>) -> Option<String>
    decreases items.len(),
{
    if items.len() == 0 {
        None
    } else {
        match items[0] {
            QueueItem::Change => first_fault(items.skip(1)),
            QueueItem::Fault(m) => Some(m),
        }
    }
}

/// A poll result with the diagnostic message forgotten: only the verdict and
/// the error kind remain.
pub open spec fn result_kind(r: Result<bool, WatchError>) -> Result<bool, ErrorKind> {
    match r {
        Ok(b) => Ok(b),
        Err(e) => Err(e.kind),
    }
}

/// Drains a queue snapshot exactly as one poll does: every item in order,
/// stopping at the first fault. The verdict is `drain_verdict` of the
/// snapshot; an I/O error carries the first fault's own text, and the
/// disconnection fault carries a fixed diagnostic.
pub fn drain_all(items: &Vec<QueueItem>, end: DrainEnd) -> (r: Result<bool, WatchError>)
    ensures
        result_kind(r) == drain_verdict(items@, end, false),
        r matches Err(e) ==> match first_fault(items@) {
            Some(m) => e.kind == ErrorKind::Io && e.message == m,
            None => e.kind == ErrorKind::QueueDisconnected
                && e.message@ == "notification queue disconnected"@,
        },
{
    let n = items.len();
    let mut i: usize = 0;
    let mut seen = false;
    proof {
        assert(items@.skip(0) =~= items@);
    }
    while i < n
        invariant
            i <= n,
            n == items@.len(),
            drain_verdict(items@, end, false) == drain_verdict(items@.skip(i as int), end, seen),
            first_fault(items@) == first_fault(items@.skip(i as int)),
        decreases n - i,
    {
        proof {
            assert(items@.skip(i as int)[0] == items@[i as int]);
            assert(items@.skip(i as int).skip(1) =~= items@.skip(i as int + 1));
        }
        match &items[i] {
            QueueItem::Change => {
                seen = true;
            },
            QueueItem::Fault(m) => {
                return Err(WatchError { kind: ErrorKind::Io, message: m.clone() });
            },
        }
        i = i + 1;
    }
    proof {
        assert(items@.skip(n as int) =~= Seq::<QueueItem>::empty());
    }
    match end {
        DrainEnd::Empty => Ok(seen),
        DrainEnd::Disconnected => Err(
            WatchError {
                kind: ErrorKind::QueueDisconnected,
                message: "notification queue disconnected".to_owned(),
            },
        ),
    }
}

/// What stays pending after one poll: nothing, unless the drain stopped at a
/// fault, in which case the items behind the fault are still queued.
pub open spec fn poll_rest(q: Seq<QueueItem>) -> Seq<QueueItem>
    decreases q.len(),
{
    if q.len() == 0 {
        Seq::empty()
    } else {
        match q[0] {
            QueueItem::Change => poll_rest(q.skip(1)),
            QueueItem::Fault(_) => q.skip(1),
        }
    }
}

/// The verdict of one poll on a queue holding `q`, its producer alive.
pub open spec fn poll_result(q: Seq<QueueItem>) -> Result<bool, ErrorKind> {
    drain_verdict(q, DrainEnd::Empty, false)
}

/// The verdicts of `n` successive polls starting from a queue holding `q`,
/// with no new notifications arriving in between.
pub open spec fn poll_results(q: Seq<QueueItem>, n: nat) -> Seq<Result<bool, ErrorKind>>
    decreases n,
{
    if n == 0 {
        Seq::empty()
    } else {
        seq![poll_result(q)] + poll_results(poll_rest(q), (n - 1) as nat)
    }
}

/// Draining a run of nothing but change notifications: the queue empties, the
/// verdict is the flag, raised as soon as the run is nonempty; a disconnected
/// producer is the lifecycle fault whatever was drained before it.
pub proof fn lemma_drain_changes(items: Seq<QueueItem>, end: DrainEnd, seen: bool)
    requires
        forall|j: int| 0 <= j < items.len() ==> items[j] is Change,
    ensures
        drain_verdict(items, end, seen) == (match end {
            DrainEnd::Empty => Ok::<bool, ErrorKind>(seen || items.len() > 0),
            DrainEnd::Disconnected => Err::<bool, ErrorKind>(ErrorKind::QueueDisconnected),
        }),
    decreases items.len(),
{
    if items.len() > 0 {
        assert(items[0] is Change);
        assert forall|j: int| 0 <= j < items.skip(1).len() implies items.skip(1)[j] is Change by {
            assert(items.skip(1)[j] == items[j + 1]);
        }
        lemma_drain_changes(items.skip(1), end, true);
    }
}

/// A run of change notifications with one fault behind it drains to the I/O
/// error carrying that fault's text, whatever came before the fault.
pub proof fn lemma_drain_changes_then_fault(
    items: Seq<QueueItem>,
    m: String,
    end: DrainEnd,
    seen: bool,
)
    requires
        forall|j: int| 0 <= j < items.len() ==> items[j] is Change,
    ensures
        drain_verdict(items.push(QueueItem::Fault(m)), end, seen) == Err::<bool, ErrorKind>(
            ErrorKind::Io,
        ),
        first_fault(items.push(QueueItem::Fault(m))) == Some(m),
    decreases items.len(),
{
    let s = items.push(QueueItem::Fault(m));
    if items.len() == 0 {
        assert(s[0] == QueueItem::Fault(m));
    } else {
        assert(s[0] == items[0]);
        assert(s.skip(1) =~= items.skip(1).push(QueueItem::Fault(m)));
        assert forall|j: int| 0 <= j < items.skip(1).len() implies items.skip(1)[j] is Change by {
            assert(items.skip(1)[j] == items[j + 1]);
        }
        lemma_drain_changes_then_fault(items.skip(1), m, end, true);
    }
}

/// A poll that meets no fault leaves nothing pending.
pub proof fn lemma_poll_rest_changes(q: Seq<QueueItem>)
    requires
        forall|j: int| 0 <= j < q.len() ==> q[j] is Change,
    ensures
        poll_rest(q) == Seq::<QueueItem>::empty(),
    decreases q.len(),
{
    if q.len() > 0 {
        assert(q[0] is Change);
        assert forall|j: int| 0 <= j < q.skip(1).len() implies q.skip(1)[j] is Change by {
            assert(q.skip(1)[j] == q[j + 1]);
        }
        lemma_poll_rest_changes(q.skip(1));
    }
}

/// A poll that finds the queue empty reports no change: immediately after
/// construction, or after any quiet frame, the verdict is `false`.
pub proof fn lemma_quiet_poll_false(q: Seq<QueueItem>)
    requires
        q.len() == 0,
    ensures
        poll_result(q) == Ok::<bool, ErrorKind>(false),
{
}

/// Empty polls are idempotent: with no filesystem activity at all, every one
/// of `n` successive polls returns `false` — never alternating, never erring.
pub proof fn lemma_empty_polls_all_false(n: nat)
    ensures
        poll_results(Seq::empty(), n).len() == n,
        forall|i: int| 0 <= i < n ==> poll_results(Seq::<QueueItem>::empty(), n)[i] == Ok::<
            bool,
            ErrorKind,
        >(false),
    decreases n,
{
    if n > 0 {
        lemma_empty_polls_all_false((n - 1) as nat);
        assert(poll_rest(Seq::<QueueItem>::empty()) == Seq::<QueueItem>::empty());
        assert forall|i: int| 0 <= i < n implies poll_results(Seq::<QueueItem>::empty(), n)[i]
            == Ok::<bool, ErrorKind>(false) by {
            if i > 0 {
                assert(poll_results(Seq::<QueueItem>::empty(), n)[i] == poll_results(
                    Seq::<QueueItem>::empty(),
                    (n - 1) as nat,
                )[i - 1]);
            }
        }
    }
}

/// A burst of change notifications is reported exactly once: the poll that
/// drains it returns `true`, and every later poll, with no further activity,
/// returns `false`.
pub proof fn lemma_burst_reported_once(q: Seq<QueueItem>, n: nat)
    requires
        q.len() > 0,
        forall|j: int| 0 <= j < q.len() ==> q[j] is Change,
        n > 0,
    ensures
        poll_results(q, n).len() == n,
        poll_results(q, n)[0] == Ok::<bool, ErrorKind>(true),
        forall|i: int| 1 <= i < n ==> poll_results(q, n)[i] == Ok::<bool, ErrorKind>(false),
{
    lemma_drain_changes(q, DrainEnd::Empty, false);
    lemma_poll_rest_changes(q);
    lemma_empty_polls_all_false((n - 1) as nat);
    assert forall|i: int| 1 <= i < n implies poll_results(q, n)[i] == Ok::<bool, ErrorKind>(
        false,
    ) by {
        assert(poll_results(q, n)[i] == poll_results(Seq::<QueueItem>::empty(), (n - 1) as nat)[i
            - 1]);
    }
}

/// Writes coalesce: any two nonempty runs of change notifications poll to the
/// same single verdict `true`, however many writes produced either of them.
pub proof fn lemma_writes_coalesce(q1: Seq<QueueItem>, q2: Seq<QueueItem>)
    requires
        q1.len() > 0,
        q2.len() > 0,
        forall|j: int| 0 <= j < q1.len() ==> q1[j] is Change,
        forall|j: int| 0 <= j < q2.len() ==> q2[j] is Change,
    ensures
        poll_result(q1) == poll_result(q2),
        poll_result(q1) == Ok::<bool, ErrorKind>(true),
{
    lemma_drain_changes(q1, DrainEnd::Empty, false);
    lemma_drain_changes(q2, DrainEnd::Empty, false);
}

} // verus!
