//! The duplicate history of a distinct-until-changed filter: the pure step
//! relation on the "last forwarded value", the laws that follow from it, and
//! the shared, lock-guarded cell that carries that value across cloned
//! handles.

use vstd::prelude::*;
use vstd::rwlock::{RwLock, RwLockPredicate};

verus! {

/// What one distinct-until-changed step forwards, given the previously
/// forwarded value `prev` and the incoming value `x`: the value itself,
/// unless it repeats the previous one.
pub open spec fn step_out(prev: Option<i64>, x: i64) -> Option<i64> {
    if prev == Some(x) {
        None
    } else {
        Some(x)
    }
}

/// The "last forwarded value" after one step on `x`: on a forward the cell is
/// updated to `x`, and on a drop it already held `x`, so it is `Some(x)`
/// either way.
pub open spec fn step_next(prev: Option<i64>, x: i64) -> Option<i64> {
    Some(x)
}

/// One distinct-until-changed step on an explicit history value: returns the
/// new "last forwarded value" together with what is forwarded, if anything.
pub fn distinct_step(prev: Option<i64>, x: i64) -> (r: (Option<i64>, Option<i64>))
    ensures
        r.0 == step_next(prev, x),
        r.1 == step_out(prev, x),
{
    match prev {
        Some(v) => {
            if v == x {
                (Some(v), None)
            } else {
                (Some(x), Some(x))
            }
        },
        None => (Some(x), Some(x)),
    }
}

/// The forwarding half of one step: what a filter whose history reads
/// `prev` forwards for `x`, deciding without touching any state.
pub fn distinct_check(prev: Option<i64>, x: i64) -> (r: Option<i64>)
    ensures
        r == step_out(prev, x),
{
    let (_next, out) = distinct_step(prev, x);
    out
}

/// The values a distinct-until-changed filter forwards when the values of
/// `xs` are sent one by one, starting from the history `prev`.
pub open spec fn run_outputs(prev: Option<i64>, xs: Seq<i64>) -> Seq<i64>
    decreases xs.len(),
{
    if xs.len() == 0 {
        Seq::empty()
    } else if prev == Some(xs[0]) {
        run_outputs(step_next(prev, xs[0]), xs.drop_first())
    } else {
        seq![xs[0]] + run_outputs(step_next(prev, xs[0]), xs.drop_first())
    }
}

/// `xs` with each maximal run of consecutive equal values collapsed to its
/// first element.
pub open spec fn collapse_runs(xs: Seq<i64>) -> Seq<i64>
    decreases xs.len(),
{
    if xs.len() == 0 {
        Seq::empty()
    } else if xs.len() >= 2 && xs[0] == xs[1] {
        collapse_runs(xs.drop_first())
    } else {
        seq![xs[0]] + collapse_runs(xs.drop_first())
    }
}

/// Collapsing runs keeps the first element in place.
pub proof fn lemma_collapse_runs_first(xs: Seq<i64>)
    requires
        xs.len() > 0,
    ensures
        collapse_runs(xs).len() > 0,
        collapse_runs(xs)[0] == xs[0],
    decreases xs.len(),
{
    if xs.len() >= 2 && xs[0] == xs[1] {
        lemma_collapse_runs_first(xs.drop_first());
    }
}

/// How a run from an arbitrary history relates to collapsing runs: the filter
/// forwards the collapsed sequence, except that a first value equal to the
/// history is dropped.
pub proof fn lemma_run_outputs_collapse(prev: Option<i64>, xs: Seq<i64>)
    ensures
        run_outputs(prev, xs) == (if xs.len() > 0 && prev == Some(xs[0]) {
            collapse_runs(xs).drop_first()
        } else {
            collapse_runs(xs)
        }),
    decreases xs.len(),
{
    if xs.len() == 0 {
    } else {
        let h = xs[0];
        let t = xs.drop_first();
        lemma_run_outputs_collapse(Some(h), t);
        if prev == Some(h) {
            if t.len() > 0 && t[0] == h {
                assert(collapse_runs(xs) == collapse_runs(t));
            } else {
                assert(collapse_runs(xs) == seq![h] + collapse_runs(t));
                assert((seq![h] + collapse_runs(t)).drop_first() =~= collapse_runs(t));
            }
        } else {
            if t.len() > 0 && t[0] == h {
                lemma_collapse_runs_first(t);
                assert(seq![h] + collapse_runs(t).drop_first() =~= collapse_runs(t));
            }
        }
    }
}

/// A fresh filter forwards the input sequence with each maximal run of
/// consecutive equal values collapsed to its first element.
pub proof fn lemma_fresh_run_collapses_runs(xs: Seq<i64>)
    ensures
        run_outputs(None, xs) == collapse_runs(xs),
{
    lemma_run_outputs_collapse(None, xs);
}

/// The first value sent through a fresh filter is always forwarded, whatever
/// it is.
pub proof fn lemma_first_value_forwarded(x: i64, xs: Seq<i64>)
    ensures
        step_out(None, x) == Some(x),
        xs.len() > 0 ==> run_outputs(None, xs).len() > 0 && run_outputs(None, xs)[0] == xs[0],
{
    if xs.len() > 0 {
        assert(run_outputs(None, xs) == seq![xs[0]] + run_outputs(Some(xs[0]), xs.drop_first()));
    }
}

/// Once a value has been forwarded, an immediate repeat of it is dropped and
/// leaves the history as it was: the repeat changes nothing downstream.
pub proof fn lemma_repeat_suppressed(prev: Option<i64>, x: i64)
    ensures
        step_out(step_next(prev, x), x) == None::<i64>,
        step_next(step_next(prev, x), x) == step_next(prev, x),
        run_outputs(prev, seq![x, x]) == run_outputs(prev, seq![x]),
{
    let once = seq![x];
    let twice = seq![x, x];
    assert(twice.drop_first() =~= once);
    assert(once.drop_first() =~= Seq::<i64>::empty());
    assert(run_outputs(Some(x), once) == run_outputs(Some(x), Seq::<i64>::empty()));
    if prev == Some(x) {
        assert(run_outputs(prev, twice) == run_outputs(Some(x), once));
    } else {
        assert(run_outputs(prev, twice) == seq![x] + run_outputs(Some(x), once));
        assert(run_outputs(prev, once) == seq![x] + run_outputs(Some(x), Seq::<i64>::empty()));
        assert(seq![x] + Seq::<i64>::empty() =~= seq![x]);
    }
}

/// The lock on a history cell admits every value: the cell's meaning lies in
/// how the step relation reads and writes it, not in a data invariant.
pub struct HistoryPred;

impl RwLockPredicate<Option<i64>> for HistoryPred {
    open spec fn inv(self, v: Option<i64>) -> bool {
        true
    }
}

/// A shared handle to one mutable "last forwarded value" cell. Cloning the
/// handle shares the cell, so every clone observes and mutates the same
/// running history; a fresh cell starts empty.
#[derive(Clone)]
pub struct SharedHistory {
    cell: std::sync::Arc<RwLock<Option<i64>, HistoryPred>>,
}

impl SharedHistory {
    /// A fresh cell with no value forwarded yet.
    pub fn new() -> Self {
        SharedHistory { cell: std::sync::Arc::new(RwLock::new(None, Ghost(HistoryPred))) }
    }

    /// The value currently in the cell.
    pub fn read(&self) -> Option<i64> {
        let handle = self.cell.acquire_read();
        let value = *handle.borrow();
        handle.release_read();
        value
    }

    /// Overwrites the cell.
    pub fn write(&self, value: Option<i64>) {
        let (_prev, handle) = self.cell.acquire_write();
        handle.release_write(value);
    }

    /// One distinct-until-changed step against the cell, read, compared and
    /// written under a single exclusive lock: whatever the cell held, the
    /// step forwards either nothing or the value itself.
    pub fn update(&self, x: i64) -> (r: Option<i64>)
        ensures
            r matches Some(v) ==> v == x,
    {
        let (prev, handle) = self.cell.acquire_write();
        let (next, out) = distinct_step(prev, x);
        handle.release_write(next);
        out
    }
}

} // verus!
