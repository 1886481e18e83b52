//! The terminal-state reducer for operation lifecycle streams.
//!
//! Every await-style endpoint (invoice, payment, deposit, withdrawal,
//! reissuance) consumes a potentially unbounded stream of lifecycle events
//! and must stop at the first terminal one. The reducer here centralizes
//! that logic: events are classified per operation kind, and the waiter
//! consumes them in order until one stops it, or the stream ends with no
//! outcome. The waiter imposes no timeout; callers race it against a
//! deadline externally if they want one.

use vstd::prelude::*;

verus! {

/// Classification of one lifecycle event under its operation kind.
///
/// Every kind has in-progress events (`Continue`), exactly one success
/// terminal, and one or more failure terminals. A kind that supports
/// finishing in the background classifies its hand-off point as
/// `MayDetach`: the waiter stops there only when the caller asked not to
/// block.
#[derive(Clone, Copy, Debug, PartialEq, Eq, Structural)]
pub enum EventClass {
    Continue,
    SuccessTerminal,
    FailTerminal,
    MayDetach,
}

/// An event of one operation's progress stream, classifiable for the waiter.
pub trait LifecycleEvent: Sized {
    /// The class this event has under its operation kind.
    spec fn classification(&self) -> EventClass;

    fn classify(&self) -> (c: EventClass)
        ensures
            c == self.classification();
}

/// The single result the waiter reduces a stream to.
///
/// `UnexpectedEnd` is the defined failure for a stream that ends before
/// any terminal event; it is reported to the caller, never a crash.
#[derive(Debug)]
pub enum WaiterOutcome<E> {
    Success(E),
    Fatal(E),
    UnexpectedEnd,
    Detached(E),
}

pub open spec fn spec_is_terminal(c: EventClass) -> bool {
    c == EventClass::SuccessTerminal || c == EventClass::FailTerminal
}

/// Whether event `e` stops the waiter when `background` completion was
/// requested.
pub open spec fn spec_stops<E: LifecycleEvent>(e: E, background: bool) -> bool {
    spec_is_terminal(e.classification()) || (background && e.classification()
        == EventClass::MayDetach)
}

/// The outcome produced by the event that stopped the waiter.
pub open spec fn spec_outcome<E: LifecycleEvent>(e: E, background: bool) -> WaiterOutcome<E> {
    if e.classification() == EventClass::SuccessTerminal {
        WaiterOutcome::Success(e)
    } else if e.classification() == EventClass::FailTerminal {
        WaiterOutcome::Fatal(e)
    } else {
        WaiterOutcome::Detached(e)
    }
}

/// Outcome and number of events consumed when reducing `s` in order:
/// stop at the first stopping event, else exhaust the stream.
pub open spec fn spec_wait<E: LifecycleEvent>(s: Seq<E>, background: bool) -> (WaiterOutcome<
    E,
>, nat)
    decreases s.len(),
{
    if s.len() == 0 {
        (WaiterOutcome::UnexpectedEnd, 0 as nat)
    } else if spec_stops(s[0], background) {
        (spec_outcome(s[0], background), 1 as nat)
    } else {
        let rest = spec_wait(s.drop_first(), background);
        (rest.0, (rest.1 + 1) as nat)
    }
}

pub proof fn lemma_wait_count<E: LifecycleEvent>(s: Seq<E>, background: bool)
    ensures
        spec_wait(s, background).1 <= s.len(),
    decreases s.len(),
{
    if s.len() > 0 && !spec_stops(s[0], background) {
        lemma_wait_count(s.drop_first(), background);
    }
}

/// One operation's reducer. `background` records whether the caller asked
/// to stop blocking as soon as the operation can finish on its own.
#[derive(Clone, Copy, Debug)]
pub struct OperationWaiter {
    pub background: bool,
}

impl OperationWaiter {
    pub fn new(background: bool) -> (r: OperationWaiter)
        ensures
            r.background == background,
    {
        OperationWaiter { background }
    }

    /// Consume one event; `Some` means the waiter stops with that outcome.
    pub fn observe<E: LifecycleEvent>(&self, e: E) -> (r: Option<WaiterOutcome<E>>)
        ensures
            spec_stops(e, self.background) ==> r == Some(spec_outcome(e, self.background)),
            !spec_stops(e, self.background) ==> r is None,
    {
        match e.classify() {
            EventClass::SuccessTerminal => Some(WaiterOutcome::Success(e)),
            EventClass::FailTerminal => Some(WaiterOutcome::Fatal(e)),
            EventClass::MayDetach => if self.background {
                Some(WaiterOutcome::Detached(e))
            } else {
                None
            },
            EventClass::Continue => None,
        }
    }

    /// Reduce a finite, already buffered stream: the outcome and how many
    /// events were consumed.
    pub fn drain<E: LifecycleEvent>(&self, events: Vec<E>) -> (r: (WaiterOutcome<E>, usize))
        ensures
            r.0 == spec_wait(events@, self.background).0,
            r.1 == spec_wait(events@, self.background).1,
        decreases events@.len(),
    {
        let mut events = events;
        if events.len() == 0 {
            (WaiterOutcome::UnexpectedEnd, 0)
        } else {
            let e = events.remove(0);
            match self.observe(e) {
                Some(o) => (o, 1),
                None => {
                    proof {
                        lemma_wait_count(events@, self.background);
                    }
                    let rest = self.drain(events);
                    (rest.0, rest.1 + 1)
                },
            }
        }
    }
}

/// Law: a stream whose only terminal event sits at position `k` (with no
/// earlier detach hand-off taken) makes the waiter return that event's
/// outcome having consumed exactly the events up to and including `k`.
pub proof fn lemma_waiter_stops_at_sole_terminal<E: LifecycleEvent>(
    s: Seq<E>,
    background: bool,
    k: int,
)
    requires
        0 <= k < s.len(),
        spec_is_terminal(s[k].classification()),
        forall|i: int| 0 <= i < s.len() && i != k ==> !spec_is_terminal(
            #[trigger] s[i].classification(),
        ),
        background ==> forall|i: int|
            0 <= i < k ==> #[trigger] s[i].classification() != EventClass::MayDetach,
    ensures
        spec_wait(s, background).0 == spec_outcome(s[k], background),
        spec_wait(s, background).1 == k + 1,
    decreases k,
{
    if k == 0 {
    } else {
        assert(!spec_stops(s[0], background));
        let rest = s.drop_first();
        assert forall|i: int| 0 <= i < rest.len() && i != k - 1 implies !spec_is_terminal(
            #[trigger] rest[i].classification(),
        ) by {
            assert(rest[i] == s[i + 1]);
        }
        if background {
            assert forall|i: int| 0 <= i < k - 1 implies #[trigger] rest[i].classification()
                != EventClass::MayDetach by {
                assert(rest[i] == s[i + 1]);
            }
        }
        assert(rest[k - 1] == s[k]);
        lemma_waiter_stops_at_sole_terminal(rest, background, k - 1);
    }
}

/// Law: a stream with no terminal event (and, in background mode, no
/// detach hand-off either) exhausts the waiter, which reports the defined
/// unexpected-end failure after consuming everything.
pub proof fn lemma_waiter_unexpected_end<E: LifecycleEvent>(s: Seq<E>, background: bool)
    requires
        forall|i: int| 0 <= i < s.len() ==> !spec_is_terminal(#[trigger] s[i].classification()),
        background ==> forall|i: int|
            0 <= i < s.len() ==> #[trigger] s[i].classification() != EventClass::MayDetach,
    ensures
        spec_wait(s, background).0 == WaiterOutcome::<E>::UnexpectedEnd,
        spec_wait(s, background).1 == s.len(),
    decreases s.len(),
{
    if s.len() > 0 {
        assert(!spec_stops(s[0], background));
        let rest = s.drop_first();
        assert forall|i: int| 0 <= i < rest.len() implies !spec_is_terminal(
            #[trigger] rest[i].classification(),
        ) && rest[i].classification() != EventClass::MayDetach || !spec_is_terminal(
            rest[i].classification(),
        ) by {
            assert(rest[i] == s[i + 1]);
        }
        if background {
            assert forall|i: int| 0 <= i < rest.len() implies #[trigger] rest[i].classification()
                != EventClass::MayDetach by {
                assert(rest[i] == s[i + 1]);
            }
        }
        lemma_waiter_unexpected_end(rest, background);
    }
}

/// Law: with background completion requested, the waiter returns
/// `Detached` at the first detach hand-off, even when a terminal event
/// exists later in the stream.
pub proof fn lemma_waiter_detaches_first<E: LifecycleEvent>(s: Seq<E>, k: int)
    requires
        0 <= k < s.len(),
        s[k].classification() == EventClass::MayDetach,
        forall|i: int| 0 <= i < k ==> !spec_stops(#[trigger] s[i], true),
    ensures
        spec_wait(s, true).0 == WaiterOutcome::Detached(s[k]),
        spec_wait(s, true).1 == k + 1,
    decreases k,
{
    if k == 0 {
    } else {
        let rest = s.drop_first();
        assert forall|i: int| 0 <= i < k - 1 implies !spec_stops(#[trigger] rest[i], true) by {
            assert(rest[i] == s[i + 1]);
        }
        assert(rest[k - 1] == s[k]);
        lemma_waiter_detaches_first(rest, k - 1);
    }
}

} // verus!
