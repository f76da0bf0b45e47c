//! Trusted bindings to the underlying channel crate. The channel itself —
//! queueing, blocking, timeouts, disconnection — is a pre-existing
//! capability this crate wraps; each binding states only what that crate's
//! documentation promises of the call, and the errors are mapped, variant
//! by variant, onto error types of this crate.

use vstd::prelude::*;

verus! {

/// `crossbeam_channel::Sender`, the underlying channel sender this crate
/// wraps, declared so that verified code can hold one and pass it along.
#[verifier::external_type_specification]
#[verifier::external_body]
#[verifier::reject_recursive_types(T)]
pub struct ExSender<T>(crossbeam_channel::Sender<T>);

/// `std::time::Instant`, the absolute deadline handed through to
/// deadline sends.
#[verifier::external_type_specification]
#[verifier::external_body]
pub struct ExInstant(std::time::Instant);

/// Why a non-blocking send did not enqueue; either way the message is
/// handed back inside the error.
#[derive(Clone, Copy, Debug, PartialEq, Eq, Structural)]
pub enum TrySendError {
    /// The channel is full and the message could not be enqueued.
    Full(i64),
    /// All receivers are gone.
    Disconnected(i64),
}

impl TrySendError {
    /// The message the failed send handed back.
    pub open spec fn message(self) -> i64 {
        match self {
            TrySendError::Full(v) => v,
            TrySendError::Disconnected(v) => v,
        }
    }
}

/// Why a blocking send failed: all receivers are gone; the message is
/// handed back inside the error.
#[derive(Clone, Copy, Debug, PartialEq, Eq, Structural)]
pub struct SendError(pub i64);

impl SendError {
    /// The message the failed send handed back.
    pub open spec fn message(self) -> i64 {
        self.0
    }
}

/// Why a timed send did not enqueue; either way the message is handed back
/// inside the error.
#[derive(Clone, Copy, Debug, PartialEq, Eq, Structural)]
pub enum SendTimeoutError {
    /// The timeout or deadline passed with the channel still full.
    Timeout(i64),
    /// All receivers are gone.
    Disconnected(i64),
}

impl SendTimeoutError {
    /// The message the failed send handed back.
    pub open spec fn message(self) -> i64 {
        match self {
            SendTimeoutError::Timeout(v) => v,
            SendTimeoutError::Disconnected(v) => v,
        }
    }
}

/// The channel's bound as a function of the sender handle alone: a
/// channel's capacity is fixed when it is made and never changes, so two
/// calls on one handle always agree.
pub uninterp spec fn capacity_of(s: crossbeam_channel::Sender<i64>) -> Option<usize>;

/// Whether two sender handles belong to one channel: fixed for given
/// handles, however they were cloned or wrapped.
pub uninterp spec fn same_channel_of(
    s: crossbeam_channel::Sender<i64>,
    other: crossbeam_channel::Sender<i64>,
) -> bool;

/// Relies on `crossbeam_channel::Sender::try_send`: it either enqueues the
/// message immediately or returns it back inside a full or disconnected
/// error.
#[verifier::external_body]
pub(crate) fn sender_try_send(s: &crossbeam_channel::Sender<i64>, msg: i64) -> (r: Result<
    (),
    TrySendError,
>)
    ensures
        r matches Err(e) ==> e.message() == msg,
{
    match s.try_send(msg) {
        Ok(()) => Ok(()),
        Err(crossbeam_channel::TrySendError::Full(m)) => Err(TrySendError::Full(m)),
        Err(crossbeam_channel::TrySendError::Disconnected(m)) => Err(TrySendError::Disconnected(m)),
    }
}

/// Relies on `crossbeam_channel::Sender::send`: it blocks until the message
/// is enqueued, or returns it back inside an error once all receivers are
/// gone.
#[verifier::external_body]
pub(crate) fn sender_send(s: &crossbeam_channel::Sender<i64>, msg: i64) -> (r: Result<
    (),
    SendError,
>)
    ensures
        r matches Err(e) ==> e.message() == msg,
{
    match s.send(msg) {
        Ok(()) => Ok(()),
        Err(crossbeam_channel::SendError(m)) => Err(SendError(m)),
    }
}

/// Relies on `crossbeam_channel::Sender::send_timeout`: it waits at most
/// `timeout` for room, and a message that was not enqueued comes back
/// inside the error.
#[verifier::external_body]
pub(crate) fn sender_send_timeout(
    s: &crossbeam_channel::Sender<i64>,
    msg: i64,
    timeout: core::time::Duration,
) -> (r: Result<(), SendTimeoutError>)
    ensures
        r matches Err(e) ==> e.message() == msg,
{
    match s.send_timeout(msg, timeout) {
        Ok(()) => Ok(()),
        Err(crossbeam_channel::SendTimeoutError::Timeout(m)) => Err(SendTimeoutError::Timeout(m)),
        Err(crossbeam_channel::SendTimeoutError::Disconnected(m)) => Err(
            SendTimeoutError::Disconnected(m),
        ),
    }
}

/// Relies on `crossbeam_channel::Sender::send_deadline`: it waits until
/// `deadline` at the latest for room, and a message that was not enqueued
/// comes back inside the error.
#[verifier::external_body]
pub(crate) fn sender_send_deadline(
    s: &crossbeam_channel::Sender<i64>,
    msg: i64,
    deadline: std::time::Instant,
) -> (r: Result<(), SendTimeoutError>)
    ensures
        r matches Err(e) ==> e.message() == msg,
{
    match s.send_deadline(msg, deadline) {
        Ok(()) => Ok(()),
        Err(crossbeam_channel::SendTimeoutError::Timeout(m)) => Err(SendTimeoutError::Timeout(m)),
        Err(crossbeam_channel::SendTimeoutError::Disconnected(m)) => Err(
            SendTimeoutError::Disconnected(m),
        ),
    }
}

/// Relies on `crossbeam_channel::Sender::is_empty`: whether the queue held
/// no messages at the moment of the call.
#[verifier::external_body]
pub(crate) fn sender_is_empty(s: &crossbeam_channel::Sender<i64>) -> bool {
    s.is_empty()
}

/// Relies on `crossbeam_channel::Sender::is_full`: whether the queue was at
/// its capacity at the moment of the call.
#[verifier::external_body]
pub(crate) fn sender_is_full(s: &crossbeam_channel::Sender<i64>) -> bool {
    s.is_full()
}

/// Relies on `crossbeam_channel::Sender::len`: how many messages the queue
/// held at the moment of the call.
#[verifier::external_body]
pub(crate) fn sender_len(s: &crossbeam_channel::Sender<i64>) -> usize {
    s.len()
}

/// Relies on `crossbeam_channel::Sender::capacity`: the channel's bound, or
/// `None` for an unbounded channel — a pure function of the handle.
#[verifier::external_body]
pub(crate) fn sender_capacity(s: &crossbeam_channel::Sender<i64>) -> (r: Option<usize>)
    ensures
        r == capacity_of(*s),
{
    s.capacity()
}

/// Relies on `crossbeam_channel::Sender::same_channel`: whether the two
/// senders are handles to one channel — a pure function of the two handles.
#[verifier::external_body]
pub(crate) fn sender_same_channel(
    s: &crossbeam_channel::Sender<i64>,
    other: &crossbeam_channel::Sender<i64>,
) -> (r: bool)
    ensures
        r == same_channel_of(*s, *other),
{
    s.same_channel(other)
}

} // verus!
