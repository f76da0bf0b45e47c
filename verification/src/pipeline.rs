//! The pipeline-stage mechanism: the stage capability, the identity and
//! composite stages, the closed set of stages a pipeline is folded from, and
//! a sequential model of a pipeline over which the composition laws are
//! stated.

use vstd::prelude::*;
use crate::history::step_out;
use crate::operators::distinct_until_changed::DistinctUntilChangedStage;

verus! {

/// A stage of filtering applied to elements passed through a channel.
///
/// The stage capability in general is transform-or-drop; this crate's one
/// operator only ever filters, and the trait-level contract deliberately
/// pins that down — every stage promotes an element unchanged or drops it,
/// and a mapping stage would need this contract loosened first. It is this
/// pass-through guarantee that lets the composite and the senders promise
/// that whatever reaches the channel is the message itself. Concrete
/// stages may carry mutable internal state that is visible across calls.
pub trait PipelineStage {
    /// If the element gets promoted to the next stage, returns it back.
    /// If it does not pass the stage, returns `None`.
    fn apply(&self, element: i64) -> (r: Option<i64>)
        ensures
            r matches Some(v) ==> v == element,
    ;
}

/// The closed set of stages a pipeline is built from, dispatched by `match`.
pub enum Stage {
    Identity(IdentityPipelineStage),
    Composite(CompositePipelineStage),
    DistinctUntilChanged(DistinctUntilChangedStage),
}

impl Stage {
    /// True when no stage of this pipeline carries mutable state, so that
    /// `apply` is a pure function of its argument.
    pub open spec fn stateless(self) -> bool
        decreases self,
    {
        match self {
            Stage::Identity(_) => true,
            Stage::Composite(c) => c.left.stateless() && c.right.stateless(),
            Stage::DistinctUntilChanged(_) => false,
        }
    }
}

impl PipelineStage for Stage {
    fn apply(&self, element: i64) -> (r: Option<i64>)
        ensures
            self.stateless() ==> r == Some(element),
        decreases *self,
    {
        match self {
            Stage::Identity(stage) => stage.apply(element),
            Stage::Composite(stage) => stage.apply(element),
            Stage::DistinctUntilChanged(stage) => stage.apply(element),
        }
    }
}

impl Clone for Stage {
    /// Cloning a pipeline clones the handles of its stateful stages, not
    /// their cells, so the clone shares their running history; a stateless
    /// pipeline is reproduced exactly.
    fn clone(&self) -> (r: Self)
        ensures
            r.stateless() == self.stateless(),
            self.stateless() ==> r == *self,
        decreases *self,
    {
        match self {
            Stage::Identity(stage) => Stage::Identity(*stage),
            Stage::Composite(stage) => Stage::Composite(stage.clone()),
            Stage::DistinctUntilChanged(stage) => Stage::DistinctUntilChanged(stage.clone()),
        }
    }
}

/// Folds two pipeline stages into one: the left stage runs first, and only
/// an element it promotes reaches the right stage.
pub struct CompositePipelineStage {
    pub left: Box<Stage>,
    pub right: Box<Stage>,
}

impl Clone for CompositePipelineStage {
    /// Clones both sub-stages, sharing any stateful cells within them.
    fn clone(&self) -> (r: Self)
        ensures
            r.left.stateless() == self.left.stateless(),
            r.right.stateless() == self.right.stateless(),
            self.left.stateless() && self.right.stateless() ==> r == *self,
        decreases *self,
    {
        CompositePipelineStage {
            left: Box::new((*self.left).clone()),
            right: Box::new((*self.right).clone()),
        }
    }
}

impl CompositePipelineStage {
    pub fn of(left: Box<Stage>, right: Box<Stage>) -> (r: Self)
        ensures
            r.left == left,
            r.right == right,
    {
        CompositePipelineStage { left, right }
    }
}

impl PipelineStage for CompositePipelineStage {
    fn apply(&self, element: i64) -> (r: Option<i64>)
        ensures
            self.left.stateless() && self.right.stateless() ==> r == Some(element),
        decreases *self,
    {
        match self.left.apply(element) {
            None => None,
            Some(intermediate) => self.right.apply(intermediate),
        }
    }
}

/// A pipeline stage that accepts every element unchanged: the neutral
/// element of composition, and the initial pipeline of a freshly wrapped
/// sender.
#[derive(Clone, Copy)]
pub struct IdentityPipelineStage;

impl IdentityPipelineStage {
    pub fn new() -> (r: Self)
        ensures
            r == IdentityPipelineStage,
    {
        IdentityPipelineStage
    }
}

impl PipelineStage for IdentityPipelineStage {
    fn apply(&self, element: i64) -> (r: Option<i64>)
        ensures
            r == Some(element),
    {
        Some(element)
    }
}

/// A sequential model of a pipeline: the same shape as `Stage`, with the
/// mutable history of each distinct-until-changed stage written out as an
/// explicit value, so that the effect of one `apply` call on both the output
/// and the state can be stated.
pub enum StageModel {
    Identity,
    Composite(Box<StageModel>, Box<StageModel>),
    DistinctUntilChanged(Option<i64>),
}

/// The model of composing two stages.
pub open spec fn composite_model(left: StageModel, right: StageModel) -> StageModel {
    StageModel::Composite(Box::new(left), Box::new(right))
}

/// One `apply` call on the model: the stage as it stands after the call,
/// and the value promoted out of it, if any.
pub open spec fn model_apply(m: StageModel, x: i64) -> (StageModel, Option<i64>)
    decreases m,
{
    match m {
        StageModel::Identity => (StageModel::Identity, Some(x)),
        StageModel::DistinctUntilChanged(prev) => (
            StageModel::DistinctUntilChanged(Some(x)),
            step_out(prev, x),
        ),
        StageModel::Composite(left, right) => {
            let after_left = model_apply(*left, x);
            match after_left.1 {
                None => (StageModel::Composite(Box::new(after_left.0), right), None),
                Some(intermediate) => {
                    let after_right = model_apply(*right, intermediate);
                    (
                        StageModel::Composite(Box::new(after_left.0), Box::new(after_right.0)),
                        after_right.1,
                    )
                },
            }
        },
    }
}

/// Short-circuit law of composition: when the left sub-stage drops the
/// element, the composite drops it too, and the right sub-stage is never
/// run — its state is exactly what it was.
pub proof fn lemma_composite_short_circuit(left: StageModel, right: StageModel, x: i64)
    requires
        model_apply(left, x).1 is None,
    ensures
        model_apply(composite_model(left, right), x).1 is None,
        model_apply(composite_model(left, right), x).0
            == composite_model(model_apply(left, x).0, right),
{
}

/// Associativity of composition: folding a chain of stages pairwise to the
/// left or to the right makes no difference — one call promotes the same
/// value either way and leaves the three sub-stages in the same states,
/// re-bracketed.
pub proof fn lemma_composite_associative(a: StageModel, b: StageModel, c: StageModel, x: i64)
    ensures
        ({
            let left_first = model_apply(composite_model(composite_model(a, b), c), x);
            let right_first = model_apply(composite_model(a, composite_model(b, c)), x);
            &&& left_first.1 == right_first.1
            &&& (left_first.0 matches StageModel::Composite(ab, c_after)
                && *ab matches StageModel::Composite(a_after, b_after)
                ==> right_first.0 == composite_model(
                    *a_after,
                    composite_model(*b_after, *c_after),
                ))
        }),
{
    let after_a = model_apply(a, x);
    match after_a.1 {
        None => {
            assert(model_apply(composite_model(a, b), x)
                == (composite_model(after_a.0, b), None::<i64>));
            assert(model_apply(composite_model(composite_model(a, b), c), x)
                == (composite_model(composite_model(after_a.0, b), c), None::<i64>));
            assert(model_apply(composite_model(a, composite_model(b, c)), x)
                == (composite_model(after_a.0, composite_model(b, c)), None::<i64>));
        },
        Some(from_a) => {
            let after_b = model_apply(b, from_a);
            match after_b.1 {
                None => {
                    assert(model_apply(composite_model(a, b), x)
                        == (composite_model(after_a.0, after_b.0), None::<i64>));
                    assert(model_apply(composite_model(composite_model(a, b), c), x)
                        == (composite_model(composite_model(after_a.0, after_b.0), c), None::<i64>));
                    assert(model_apply(composite_model(b, c), from_a)
                        == (composite_model(after_b.0, c), None::<i64>));
                    assert(model_apply(composite_model(a, composite_model(b, c)), x)
                        == (composite_model(after_a.0, composite_model(after_b.0, c)), None::<i64>));
                },
                Some(from_b) => {
                    let after_c = model_apply(c, from_b);
                    assert(model_apply(composite_model(a, b), x)
                        == (composite_model(after_a.0, after_b.0), Some(from_b)));
                    assert(model_apply(composite_model(composite_model(a, b), c), x)
                        == (composite_model(composite_model(after_a.0, after_b.0), after_c.0),
                            after_c.1));
                    assert(model_apply(composite_model(b, c), from_a)
                        == (composite_model(after_b.0, after_c.0), after_c.1));
                    assert(model_apply(composite_model(a, composite_model(b, c)), x)
                        == (composite_model(after_a.0, composite_model(after_b.0, after_c.0)),
                            after_c.1));
                },
            }
        },
    }
}

} // verus!
