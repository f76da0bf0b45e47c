//! The earlier, sender-centric shape of the pipeline idea: a stage is a
//! sender, and wrapping a sender stacks a filter directly on top of it.
//! Here the raw channel sender is itself the bottom of every stack, so it
//! carries the send surface and acts as the stage that accepts everything.

pub mod distinct_until_changed;

pub use distinct_until_changed::{DistinctUntilChanged, PipeSender};

use vstd::prelude::*;
use crate::channel;
use crate::channel::{capacity_of, same_channel_of, SendError, SendTimeoutError, TrySendError};
use crate::pipeline::PipelineStage;

verus! {

/// The sending side of a channel.
///
/// This might be either the raw channel sender or a part of a pipeline;
/// a failed send hands the message back inside the error either way.
pub trait CrossbeamSender {
    /// The raw channel sender at the bottom of the stack, which the
    /// pass-through contracts on the queue-introspection operations speak
    /// of.
    spec fn underlying(&self) -> crossbeam_channel::Sender<i64>;

    /// Attempts to send a message into the channel without blocking.
    fn try_send(&self, msg: i64) -> (r: Result<(), TrySendError>)
        ensures
            r matches Err(e) ==> e.message() == msg,
    ;

    /// Blocks the current thread until a message is sent or the channel is
    /// disconnected.
    fn send(&self, msg: i64) -> (r: Result<(), SendError>)
        ensures
            r matches Err(e) ==> e.message() == msg,
    ;

    /// Waits at most `timeout` for the message to be sent.
    fn send_timeout(&self, msg: i64, timeout: core::time::Duration) -> (r: Result<
        (),
        SendTimeoutError,
    >)
        ensures
            r matches Err(e) ==> e.message() == msg,
    ;

    /// Waits until `deadline` at the latest for the message to be sent.
    fn send_deadline(&self, msg: i64, deadline: std::time::Instant) -> (r: Result<
        (),
        SendTimeoutError,
    >)
        ensures
            r matches Err(e) ==> e.message() == msg,
    ;

    /// Whether the channel's queue is empty.
    fn is_empty(&self) -> bool;

    /// Whether the channel's queue is at its capacity.
    fn is_full(&self) -> bool;

    /// How many messages the channel's queue holds.
    fn len(&self) -> usize;

    /// The channel's bound, or `None` for an unbounded channel: always
    /// that of the raw sender at the bottom of the stack.
    fn capacity(&self) -> (r: Option<usize>)
        ensures
            r == capacity_of(self.underlying()),
    ;

    /// Whether this sender and `other` are handles to one channel: decided
    /// by the raw sender at the bottom of the stack.
    fn same_channel(&self, other: &crossbeam_channel::Sender<i64>) -> (r: bool)
        ensures
            r == same_channel_of(self.underlying(), *other),
    ;
}

impl CrossbeamSender for crossbeam_channel::Sender<i64> {
    /// The raw sender is its own bottom.
    open spec fn underlying(&self) -> crossbeam_channel::Sender<i64> {
        *self
    }

    fn try_send(&self, msg: i64) -> (r: Result<(), TrySendError>) {
        channel::sender_try_send(self, msg)
    }

    fn send(&self, msg: i64) -> (r: Result<(), SendError>) {
        channel::sender_send(self, msg)
    }

    fn send_timeout(&self, msg: i64, timeout: core::time::Duration) -> (r: Result<
        (),
        SendTimeoutError,
    >) {
        channel::sender_send_timeout(self, msg, timeout)
    }

    fn send_deadline(&self, msg: i64, deadline: std::time::Instant) -> (r: Result<
        (),
        SendTimeoutError,
    >) {
        channel::sender_send_deadline(self, msg, deadline)
    }

    fn is_empty(&self) -> bool {
        channel::sender_is_empty(self)
    }

    fn is_full(&self) -> bool {
        channel::sender_is_full(self)
    }

    fn len(&self) -> usize {
        channel::sender_len(self)
    }

    fn capacity(&self) -> (r: Option<usize>) {
        channel::sender_capacity(self)
    }

    fn same_channel(&self, other: &crossbeam_channel::Sender<i64>) -> (r: bool) {
        channel::sender_same_channel(self, other)
    }
}

impl PipelineStage for crossbeam_channel::Sender<i64> {
    /// The raw sender is the bottom of every stack: as a stage it accepts
    /// every element unchanged.
    fn apply(&self, element: i64) -> (r: Option<i64>)
        ensures
            r == Some(element),
    {
        Some(element)
    }
}

} // verus!
