//! The channel-library adapter: binds `PipedSender` to the underlying
//! channel's sender type, exposing the raw sender's whole send-operation
//! surface with pipeline application inserted ahead of every send.

use vstd::prelude::*;
use crate::channel;
use crate::channel::{capacity_of, same_channel_of, SendError, SendTimeoutError, TrySendError};
use crate::pipeline::{IdentityPipelineStage, PipelineStage, Stage};
use crate::{IntoPiped, PipedSender};

verus! {

impl<V> IntoPiped<crossbeam_channel::Sender<i64>, V> for (crossbeam_channel::Sender<i64>, V) {
    /// Wraps the sender of this channel pair with the identity pipeline;
    /// the receiver is handed back untouched.
    fn pipe(self) -> (r: (PipedSender<crossbeam_channel::Sender<i64>>, V))
        ensures
            r.0.pipeline == Stage::Identity(IdentityPipelineStage),
            r.0.inner_sender == self.0,
            r.1 == self.1,
    {
        let (sender, receiver) = self;
        (
            PipedSender {
                pipeline: Stage::Identity(IdentityPipelineStage::new()),
                inner_sender: sender,
            },
            receiver,
        )
    }
}

/// The sending side of a channel which is a part of a pipeline.
///
/// The surface of the raw sender, taken on the pipeline's input: a message
/// the pipeline drops is reported as success without touching the channel,
/// and a message it promotes goes to the raw sender, whose outcome — error
/// included, with the message inside it — is handed back unchanged.
pub trait CrossbeamSender {
    /// The underlying channel sender, which the pass-through contracts on
    /// the queue-introspection operations speak of.
    spec fn underlying(&self) -> crossbeam_channel::Sender<i64>;

    /// Attempts to send a message into the channel without blocking.
    fn try_send(&self, msg: i64) -> (r: Result<(), TrySendError>)
        ensures
            r matches Err(e) ==> e.message() == msg,
    ;

    /// Blocks the current thread until a message is sent or the channel is
    /// disconnected.
    fn send(&self, msg: i64) -> (r: Result<(), SendError>)
        ensures
            r matches Err(e) ==> e.message() == msg,
    ;

    /// Waits at most `timeout` for the message to be sent.
    fn send_timeout(&self, msg: i64, timeout: core::time::Duration) -> (r: Result<
        (),
        SendTimeoutError,
    >)
        ensures
            r matches Err(e) ==> e.message() == msg,
    ;

    /// Waits until `deadline` at the latest for the message to be sent.
    fn send_deadline(&self, msg: i64, deadline: std::time::Instant) -> (r: Result<
        (),
        SendTimeoutError,
    >)
        ensures
            r matches Err(e) ==> e.message() == msg,
    ;

    /// Whether the channel's queue is empty.
    fn is_empty(&self) -> bool;

    /// Whether the channel's queue is at its capacity.
    fn is_full(&self) -> bool;

    /// How many messages the channel's queue holds.
    fn len(&self) -> usize;

    /// The channel's bound, or `None` for an unbounded channel: always
    /// that of the underlying sender, independent of pipeline state.
    fn capacity(&self) -> (r: Option<usize>)
        ensures
            r == capacity_of(self.underlying()),
    ;

    /// Whether this sender and `other` are handles to one channel: decided
    /// by the underlying sender alone, independent of pipeline state.
    fn same_channel(&self, other: &crossbeam_channel::Sender<i64>) -> (r: bool)
        ensures
            r == same_channel_of(self.underlying(), *other),
    ;
}

impl CrossbeamSender for PipedSender<crossbeam_channel::Sender<i64>> {
    /// The sender this pipeline feeds.
    open spec fn underlying(&self) -> crossbeam_channel::Sender<i64> {
        self.inner_sender
    }

    /// Runs the pipeline, then attempts the non-blocking send on what it
    /// promotes; a dropped message is a success that never touches the
    /// channel.
    fn try_send(&self, msg: i64) -> (r: Result<(), TrySendError>) {
        if let Some(result) = self.pipeline.apply(msg) {
            channel::sender_try_send(&self.inner_sender, result)
        } else {
            Ok(())
        }
    }

    /// Runs the pipeline, then blocks on the send of what it promotes.
    fn send(&self, msg: i64) -> (r: Result<(), SendError>) {
        if let Some(result) = self.pipeline.apply(msg) {
            channel::sender_send(&self.inner_sender, result)
        } else {
            Ok(())
        }
    }

    /// Runs the pipeline, then sends what it promotes, waiting at most
    /// `timeout`.
    fn send_timeout(&self, msg: i64, timeout: core::time::Duration) -> (r: Result<
        (),
        SendTimeoutError,
    >) {
        if let Some(result) = self.pipeline.apply(msg) {
            channel::sender_send_timeout(&self.inner_sender, result, timeout)
        } else {
            Ok(())
        }
    }

    /// Runs the pipeline, then sends what it promotes, waiting until
    /// `deadline` at the latest.
    fn send_deadline(&self, msg: i64, deadline: std::time::Instant) -> (r: Result<
        (),
        SendTimeoutError,
    >) {
        if let Some(result) = self.pipeline.apply(msg) {
            channel::sender_send_deadline(&self.inner_sender, result, deadline)
        } else {
            Ok(())
        }
    }

    /// Passes straight through to the underlying sender: the pipeline does
    /// not influence the queue's state.
    fn is_empty(&self) -> bool {
        channel::sender_is_empty(&self.inner_sender)
    }

    /// Passes straight through to the underlying sender.
    fn is_full(&self) -> bool {
        channel::sender_is_full(&self.inner_sender)
    }

    /// Passes straight through to the underlying sender.
    fn len(&self) -> usize {
        channel::sender_len(&self.inner_sender)
    }

    /// Passes straight through to the underlying sender.
    fn capacity(&self) -> (r: Option<usize>) {
        channel::sender_capacity(&self.inner_sender)
    }

    /// Passes straight through to the underlying sender.
    fn same_channel(&self, other: &crossbeam_channel::Sender<i64>) -> (r: bool) {
        channel::sender_same_channel(&self.inner_sender, other)
    }
}

} // verus!
