//! The piped-sender adapter: queue introspection passes straight through,
//! and every channel error surfaces unchanged, with the message inside,
//! whenever the pipeline forwards the value.

use std::time::{Duration, Instant};

use channel_pipes::channel::{SendError, SendTimeoutError, TrySendError};
use channel_pipes::operators::DistinctUntilChanged;
use channel_pipes::{CrossbeamSender, IntoPiped};

#[test]
fn queue_introspection_passes_through() {
    let (raw_s, r) = crossbeam_channel::bounded::<i64>(3);
    let (s, _r) = (raw_s.clone(), r).pipe().distinct_until_changed();

    assert_eq!(raw_s.is_empty(), s.is_empty());
    assert_eq!(Ok(()), s.send(1));
    assert_eq!(Ok(()), s.send(2));

    assert_eq!(raw_s.len(), s.len());
    assert_eq!(2, s.len());
    assert_eq!(raw_s.is_empty(), s.is_empty());
    assert_eq!(raw_s.is_full(), s.is_full());
    assert_eq!(raw_s.capacity(), s.capacity());
    assert_eq!(Some(3), s.capacity());
    assert!(s.same_channel(&raw_s));

    let (other_s, _other_r) = crossbeam_channel::bounded::<i64>(3);
    assert!(!s.same_channel(&other_s));
}

#[test]
fn unbounded_capacity_passes_through() {
    let (raw_s, r) = crossbeam_channel::unbounded::<i64>();
    let (s, _r) = (raw_s, r).pipe().distinct_until_changed();
    assert_eq!(None, s.capacity());
    assert!(!s.is_full());
}

#[test]
fn full_channel_error_passes_through() {
    let (raw_s, r) = crossbeam_channel::bounded::<i64>(1);
    let (s, _r) = (raw_s, r).pipe().distinct_until_changed();

    assert_eq!(Ok(()), s.try_send(1));
    assert_eq!(Err(TrySendError::Full(2)), s.try_send(2));
}

#[test]
fn disconnected_error_passes_through() {
    let (s, r) = crossbeam_channel::unbounded::<i64>().pipe().distinct_until_changed();
    drop(r);

    // A failed channel send still records the value as the last one seen,
    // so each probe uses a fresh value to keep the pipeline forwarding.
    assert_eq!(Err(TrySendError::Disconnected(3)), s.try_send(3));
    assert_eq!(Err(SendError(4)), s.send(4));
    assert_eq!(
        Err(SendTimeoutError::Disconnected(5)),
        s.send_timeout(5, Duration::from_millis(5)),
    );
    assert_eq!(
        Err(SendTimeoutError::Disconnected(6)),
        s.send_deadline(6, Instant::now() + Duration::from_millis(5)),
    );
}

#[test]
fn timeout_error_passes_through() {
    let (raw_s, r) = crossbeam_channel::bounded::<i64>(1);
    let (s, _r) = (raw_s, r).pipe().distinct_until_changed();

    assert_eq!(Ok(()), s.send(1));
    assert_eq!(
        Err(SendTimeoutError::Timeout(2)),
        s.send_timeout(2, Duration::from_millis(5)),
    );
    assert_eq!(
        Err(SendTimeoutError::Timeout(3)),
        s.send_deadline(3, Instant::now() + Duration::from_millis(5)),
    );
}

#[test]
fn suppressed_send_succeeds_even_when_channel_is_full() {
    let (raw_s, r) = crossbeam_channel::bounded::<i64>(1);
    let (s, _r) = (raw_s, r).pipe().distinct_until_changed();

    assert_eq!(Ok(()), s.send(5));
    assert!(s.is_full());
    assert_eq!(Ok(()), s.try_send(5));
    assert_eq!(Ok(()), s.send_timeout(5, Duration::from_millis(5)));
}
