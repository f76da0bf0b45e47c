//! Composition of stages: the identity stage accepts everything, the
//! composite runs left before right and short-circuits on a drop, and the
//! neutral starting pipeline of a freshly wrapped sender changes nothing.

use channel_pipes::operators::distinct_until_changed::DistinctUntilChangedStage;
use channel_pipes::pipeline::{CompositePipelineStage, IdentityPipelineStage, Stage};
use channel_pipes::{CrossbeamSender, IntoPiped, PipelineStage};

#[test]
fn identity_stage_accepts_every_element() {
    let stage = IdentityPipelineStage::new();
    assert_eq!(Some(0), stage.apply(0));
    assert_eq!(Some(-3), stage.apply(-3));
    assert_eq!(Some(i64::MAX), stage.apply(i64::MAX));
}

#[test]
fn composite_applies_left_then_right() {
    let left = DistinctUntilChangedStage::new();
    let right = DistinctUntilChangedStage::new();
    let comp = CompositePipelineStage::of(
        Box::new(Stage::DistinctUntilChanged(left)),
        Box::new(Stage::DistinctUntilChanged(right)),
    );

    assert_eq!(Some(1), comp.apply(1));
    assert_eq!(None, comp.apply(1));
    assert_eq!(Some(2), comp.apply(2));
}

#[test]
fn composite_short_circuits_when_left_drops() {
    let left = DistinctUntilChangedStage::new();
    let left_probe = left.clone();
    let right = DistinctUntilChangedStage::new();
    let right_probe = right.clone();
    let comp = CompositePipelineStage::of(
        Box::new(Stage::DistinctUntilChanged(left)),
        Box::new(Stage::DistinctUntilChanged(right)),
    );

    // Prime the left history through a shared handle, then let the left
    // stage drop the element.
    assert_eq!(Some(5), left_probe.apply(5));
    assert_eq!(None, comp.apply(5));

    // Had the right stage run, its history would now hold 5 and this
    // probe would be suppressed; the right stage was never invoked.
    assert_eq!(Some(5), right_probe.apply(5));
}

#[test]
fn fresh_pipe_forwards_everything() {
    let (s, r) = crossbeam_channel::unbounded::<i64>().pipe();

    assert_eq!(Ok(()), s.send(4));
    assert_eq!(Ok(()), s.send(4));
    assert_eq!(Ok(()), s.try_send(4));

    assert_eq!(Ok(4), r.try_recv());
    assert_eq!(Ok(4), r.try_recv());
    assert_eq!(Ok(4), r.try_recv());
    assert!(r.try_recv().is_err());
}
