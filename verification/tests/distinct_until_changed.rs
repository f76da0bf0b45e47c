//! The distinct-until-changed filter observed through both sender shapes:
//! run collapsing, the always-forwarded first value, and the history shared
//! across cloned handles.

use channel_pipes::operators::distinct_until_changed::DistinctUntilChangedStage;
use channel_pipes::operators::DistinctUntilChanged;
use channel_pipes::{CrossbeamSender, IntoPiped, PipelineStage};

#[test]
fn pipe_is_correctly_created() {
    let (s, r) = crossbeam_channel::unbounded::<i64>().pipe().distinct_until_changed();

    let vec = vec![1, 2, 2, 3, 3, 3, 1];
    for i in vec {
        let _ = s.send(i);
    }

    assert_eq!(Ok(1), r.try_recv());
    assert_eq!(Ok(2), r.try_recv());
    assert_eq!(Ok(3), r.try_recv());
    assert_eq!(Ok(1), r.try_recv());
    assert!(r.try_recv().is_err());
}

#[test]
fn stage_holds_state_when_cloned() {
    let s1 = DistinctUntilChangedStage::new();
    let s2 = s1.clone();
    assert_eq!(Some(1), s1.apply(1));
    assert_eq!(None, s2.apply(1));
    assert_eq!(Some(2), s2.apply(2));
    assert_eq!(None, s2.apply(2));
    assert_eq!(None, s1.apply(2));
    assert_eq!(Some(1), s1.apply(1));
}

#[test]
fn first_value_is_always_forwarded() {
    for value in [0, -5, 42, i64::MAX, i64::MIN] {
        let stage = DistinctUntilChangedStage::new();
        assert_eq!(Some(value), stage.apply(value));
    }
}

#[test]
fn repeat_send_is_success_and_enqueues_nothing() {
    let (s, r) = crossbeam_channel::unbounded::<i64>().pipe().distinct_until_changed();

    assert_eq!(Ok(()), s.send(7));
    assert_eq!(1, s.len());
    assert_eq!(Ok(()), s.send(7));
    assert_eq!(1, s.len());

    assert_eq!(Ok(7), r.try_recv());
    assert!(r.try_recv().is_err());
}

#[test]
fn cloned_handles_share_duplicate_history() {
    let (a, r) = crossbeam_channel::unbounded::<i64>().pipe().distinct_until_changed();
    let b = a.clone();

    assert_eq!(Ok(()), a.send(1));
    assert_eq!(Ok(()), b.send(1));
    assert_eq!(Ok(()), b.send(20));

    assert_eq!(Ok(1), r.try_recv());
    assert_eq!(Ok(20), r.try_recv());
    assert!(r.try_recv().is_err());
}

#[test]
fn independent_pipes_keep_independent_histories() {
    let (raw_s, raw_r) = crossbeam_channel::unbounded::<i64>();

    let (a, _) = (raw_s.clone(), raw_r.clone()).pipe().distinct_until_changed();
    let (b, _) = (raw_s, raw_r.clone()).pipe().distinct_until_changed();

    assert_eq!(Ok(()), a.send(1));
    assert_eq!(Ok(()), b.send(1));

    assert_eq!(Ok(1), raw_r.try_recv());
    assert_eq!(Ok(1), raw_r.try_recv());
    assert!(raw_r.try_recv().is_err());
}
