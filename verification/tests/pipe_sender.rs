//! The sender-centric filter wrapper: cloned wrappers share one history,
//! and channel errors pass through it with the message inside.

use channel_pipes::crossbeam::{CrossbeamSender, DistinctUntilChanged};
use channel_pipes::channel::TrySendError;

#[test]
fn pipe_can_be_cloned_but_shares_state() {
    let (s1, r1) = crossbeam_channel::unbounded::<i64>().distinct_until_changed();
    let (s2, r2) = (s1.clone(), r1.clone());
    let (s3, r3) = (s1.clone(), r1.clone());

    let _ = s1.send(1);
    let _ = s2.send(1);
    let _ = s3.send(1);
    let _ = s2.send(20);
    let _ = s3.send(20);

    assert_eq!(Ok(1), r2.try_recv());
    assert_eq!(Ok(20), r1.try_recv());
    assert!(r3.try_recv().is_err());
}

#[test]
fn wrapped_sender_surfaces_full_error() {
    let (raw_s, r) = crossbeam_channel::bounded::<i64>(1);
    let (s, _) = (raw_s, r.clone()).distinct_until_changed();

    assert_eq!(Ok(()), s.try_send(1));
    assert_eq!(Err(TrySendError::Full(2)), s.try_send(2));
    assert_eq!(Ok(1), r.try_recv());
}

#[test]
fn wrapped_sender_passes_queue_state_through() {
    let (raw_s, r) = crossbeam_channel::bounded::<i64>(2);
    let (s, _r) = (raw_s.clone(), r).distinct_until_changed();

    assert!(s.is_empty());
    assert_eq!(Ok(()), s.send(4));
    assert_eq!(raw_s.len(), s.len());
    assert_eq!(raw_s.is_empty(), s.is_empty());
    assert_eq!(raw_s.is_full(), s.is_full());
    assert_eq!(Some(2), s.capacity());
    assert!(s.same_channel(&raw_s));
}
