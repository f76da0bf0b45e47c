//! The distinct-until-changed operator: a stateful stage that drops an
//! element equal to the previously forwarded one, and the operator entry
//! point that appends such a stage to a piped sender.

use vstd::prelude::*;
use crate::history::SharedHistory;
use crate::pipeline::{PipelineStage, Stage};
use crate::PipedSender;

verus! {

/// A stage holding the "last forwarded value" in a shared, lock-guarded
/// cell. Cloning the stage clones the handle to the cell, not its contents,
/// so every clone observes and mutates the same running history.
#[derive(Clone)]
pub struct DistinctUntilChangedStage {
    previous: SharedHistory,
}

impl DistinctUntilChangedStage {
    /// A fresh stage with no element forwarded yet.
    pub fn new() -> Self {
        DistinctUntilChangedStage { previous: SharedHistory::new() }
    }
}

impl PipelineStage for DistinctUntilChangedStage {
    /// Drops the element if it equals the previously forwarded one, else
    /// stores it as the new history and forwards it; one exclusive lock
    /// covers the whole read-compare-write.
    fn apply(&self, element: i64) -> (r: Option<i64>) {
        self.previous.update(element)
    }
}

/// Filters repeating elements.
pub trait DistinctUntilChanged<S, V> {
    /// Appends a distinct-until-changed stage to the sender of this
    /// (sender, receiver) pair.
    fn distinct_until_changed(self) -> (PipedSender<S>, V);
}

impl<S, V> DistinctUntilChanged<S, V> for (PipedSender<S>, V) {
    fn distinct_until_changed(self) -> (r: (PipedSender<S>, V))
        ensures
            r.0.inner_sender == self.0.inner_sender,
            (r.0.pipeline matches Stage::Composite(c) && *c.left == self.0.pipeline
                && *c.right is DistinctUntilChanged),
            r.1 == self.1,
    {
        let (sender, receiver) = self;
        let stage = Stage::DistinctUntilChanged(DistinctUntilChangedStage::new());
        (sender.with_pipeline_stage(stage), receiver)
    }
}

} // verus!
