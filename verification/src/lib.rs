//! A decorator layer over an in-process channel: the sender side of a
//! channel pair can be wrapped in pipeline stages that filter elements
//! before they reach the underlying queue. The one operator built on the
//! mechanism is distinct-until-changed, which suppresses consecutive
//! duplicate values. Elements are 64-bit integers, compared by value, so
//! that every contract can speak of them directly.

pub mod channel;
pub mod crossbeam;
pub mod history;
pub mod implementations;
pub mod operators;
pub mod pipeline;

pub use implementations::crossbeam::CrossbeamSender;
pub use pipeline::PipelineStage;

use vstd::prelude::*;
use crate::pipeline::{CompositePipelineStage, Stage};

verus! {

/// A channel sender wrapped together with a pipeline: every send-family
/// call first runs the pipeline and only reaches the underlying sender
/// when the pipeline promotes the element.
///
/// Cloning clones the pipeline's handles to any shared stage state and the
/// underlying sender per that sender's own cloning contract, so clones
/// agree on one logical filter history and one queue.
#[derive(Clone)]
pub struct PipedSender<S> {
    pub pipeline: Stage,
    pub inner_sender: S,
}

impl<S> PipedSender<S> {
    /// Appends one stage to the pipeline: a pure construction whose result
    /// owns the same underlying sender and the old pipeline composed with
    /// `new_stage` on the right.
    pub(crate) fn with_pipeline_stage(self, new_stage: Stage) -> (r: PipedSender<S>)
        ensures
            r.inner_sender == self.inner_sender,
            (r.pipeline matches Stage::Composite(c) && *c.left == self.pipeline
                && *c.right == new_stage),
    {
        let PipedSender { pipeline: prev_stages, inner_sender } = self;
        let composite_stage = CompositePipelineStage::of(Box::new(prev_stages), Box::new(new_stage));
        PipedSender { pipeline: Stage::Composite(composite_stage), inner_sender }
    }
}

/// Wraps the sender half of a channel pair with a pipeline, so that
/// operators can then be attached to it.
pub trait IntoPiped<S, V> {
    /// Wraps the sender with the identity pipeline, the neutral starting
    /// pipeline, leaving the receiver untouched.
    fn pipe(self) -> (PipedSender<S>, V);
}

} // verus!
