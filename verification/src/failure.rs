//! Containment of handler failures raised inside a foreign call frame.
//!
//! A native caller must never observe an application failure unwinding
//! through it, so a hook reports failure as a value: an [`Outcome`]. The
//! dispatch layer captures a failed outcome in the thread-scoped
//! [`FailureSlot`] and hands the driver a neutral result instead; the driver
//! drains the slot once its message loop ends and re-raises the failure
//! outside any foreign frame.

use crate::move_cell::MoveCell;
use vstd::prelude::*;

verus! {

/// The tagged result of running application code under failure containment:
/// either the operation's value or the failure it raised.
pub enum Outcome<R> {
    Done(R),
    Failed(String),
}

/// A thread-scoped slot holding at most one captured failure.
///
/// Storing a failure when one is already pending overwrites it: the most
/// recent failure wins. This is a deliberate policy, not an error queue.
pub struct FailureSlot {
    cell: MoveCell<String>,
}

impl View for FailureSlot {
    type V = Option<String>;

    closed spec fn view(&self) -> Option<String> {
        self.cell@
    }
}

impl FailureSlot {
    /// An empty slot: no failure pending.
    pub fn new() -> (r: FailureSlot)
        ensures
            r@ is None,
    {
        FailureSlot { cell: MoveCell::new() }
    }

    /// Whether a failure is pending on this slot.
    pub fn is_set(&self) -> (r: bool)
        ensures
            r == (self@ is Some),
    {
        self.cell.is_set()
    }

    /// Records `failure`, overwriting any pending one (most recent wins).
    pub fn set(&mut self, failure: String)
        ensures
            final(self)@ == Some(failure),
    {
        let _ = self.cell.set(failure);
    }

    /// Drains the slot: the captured failure, if any, leaves the slot empty.
    /// The driver calls this once after its message loop ends, so each
    /// failure becomes observable at most once.
    pub fn take(&mut self) -> (r: Option<String>)
        ensures
            r == old(self)@,
            final(self)@ is None,
    {
        self.cell.take()
    }

    /// Runs an operation's tagged result through the containment boundary:
    /// a successful outcome passes through untouched; a failed one is
    /// captured here (overwriting any pending failure) and becomes an empty
    /// result.
    pub fn guard<R>(&mut self, outcome: Outcome<R>) -> (r: Option<R>)
        ensures
            match outcome {
                Outcome::Done(v) => r == Some(v) && final(self)@ == old(self)@,
                Outcome::Failed(f) => r is None && final(self)@ == Some(f),
            },
    {
        match outcome {
            Outcome::Done(v) => Some(v),
            Outcome::Failed(f) => {
                self.set(f);
                None
            },
        }
    }
}

/// The slot after a run of guarded outcomes: each success leaves it alone,
/// each failure overwrites it.
pub open spec fn slot_after<R>(s0: Option<String>, outcomes: Seq<Outcome<R>>) -> Option<String>
    decreases outcomes.len(),
{
    if outcomes.len() == 0 {
        s0
    } else {
        let next = match outcomes[0] {
            Outcome::Done(_) => s0,
            Outcome::Failed(f) => Some(f),
        };
        slot_after(next, outcomes.drop_first())
    }
}

/// A run without failures never touches the slot.
pub proof fn lemma_successes_keep_slot<R>(s0: Option<String>, outcomes: Seq<Outcome<R>>)
    requires
        forall|j: int| 0 <= j < outcomes.len() ==> !(outcomes[j] is Failed),
    ensures
        slot_after(s0, outcomes) == s0,
    decreases outcomes.len(),
{
    if outcomes.len() > 0 {
        assert(forall|j: int|
            0 <= j < outcomes.drop_first().len() ==> outcomes.drop_first()[j] == outcomes[j + 1]);
        lemma_successes_keep_slot(s0, outcomes.drop_first());
    }
}

/// The most recent failure wins: after any run of guarded hook outcomes,
/// the slot holds exactly the last failure among them, whatever was pending
/// before and however many earlier failures were overwritten. Drained once
/// by the driver, that failure is observed exactly once.
pub proof fn lemma_last_failure_wins<R>(
    s0: Option<String>,
    outcomes: Seq<Outcome<R>>,
    i: int,
    f: String,
)
    requires
        0 <= i < outcomes.len(),
        outcomes[i] == Outcome::<R>::Failed(f),
        forall|j: int| i < j < outcomes.len() ==> !(outcomes[j] is Failed),
    ensures
        slot_after(s0, outcomes) == Some(f),
    decreases outcomes.len(),
{
    assert(forall|j: int|
        0 <= j < outcomes.drop_first().len() ==> outcomes.drop_first()[j] == outcomes[j + 1]);
    if i == 0 {
        lemma_successes_keep_slot(Some(f), outcomes.drop_first());
    } else {
        let next = match outcomes[0] {
            Outcome::<R>::Done(_) => s0,
            Outcome::<R>::Failed(g) => Some(g),
        };
        lemma_last_failure_wins(next, outcomes.drop_first(), i - 1, f);
    }
}

} // verus!
