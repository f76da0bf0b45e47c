//! A sender wrapped with a distinct-until-changed check. The wrapper asks
//! the inner sender, as a stage, whether it promotes the element; if the
//! promoted element equals the previously sent one, the send becomes a
//! silent success, and otherwise the shared "last message" cell is updated
//! and the element goes to the inner sender.

use vstd::prelude::*;
use crate::channel::{SendError, SendTimeoutError, TrySendError};
use crate::crossbeam::CrossbeamSender;
use crate::history::{distinct_check, SharedHistory};
use crate::pipeline::PipelineStage;

verus! {

/// A sender carrying a distinct-until-changed filter directly on top of an
/// inner sender. Cloning clones the handle to the shared "last message"
/// cell, so every clone observes and mutates the same history.
#[derive(Clone)]
pub struct PipeSender<S> {
    pub last_message: SharedHistory,
    pub inner_sender: S,
}

impl<S: CrossbeamSender + PipelineStage> PipelineStage for PipeSender<S> {
    /// Promotes what the inner stage promotes, unless it equals the last
    /// message sent through this filter; the decision is the step relation
    /// of the history model, taken on the value the cell held when read.
    fn apply(&self, element: i64) -> (r: Option<i64>) {
        let inner_select = self.inner_sender.apply(element);
        if let Some(promoted) = inner_select {
            let last = self.last_message.read();
            distinct_check(last, promoted)
        } else {
            None
        }
    }
}

impl<S: CrossbeamSender + PipelineStage> CrossbeamSender for PipeSender<S> {
    /// The raw sender at the bottom of the inner stack.
    open spec fn underlying(&self) -> crossbeam_channel::Sender<i64> {
        self.inner_sender.underlying()
    }

    /// A message the filter drops is a success that never touches the
    /// channel; one it promotes becomes the new last message and goes to
    /// the inner sender, whose outcome is handed back unchanged.
    fn try_send(&self, msg: i64) -> (r: Result<(), TrySendError>) {
        if let Some(promoted) = self.apply(msg) {
            self.last_message.write(Some(promoted));
            self.inner_sender.try_send(promoted)
        } else {
            Ok(())
        }
    }

    /// As `try_send`, over the blocking send.
    fn send(&self, msg: i64) -> (r: Result<(), SendError>) {
        if let Some(promoted) = self.apply(msg) {
            self.last_message.write(Some(promoted));
            self.inner_sender.send(promoted)
        } else {
            Ok(())
        }
    }

    /// As `try_send`, over the timed send.
    fn send_timeout(&self, msg: i64, timeout: core::time::Duration) -> (r: Result<
        (),
        SendTimeoutError,
    >) {
        if let Some(promoted) = self.apply(msg) {
            self.last_message.write(Some(promoted));
            self.inner_sender.send_timeout(promoted, timeout)
        } else {
            Ok(())
        }
    }

    /// As `try_send`, over the deadline send.
    fn send_deadline(&self, msg: i64, deadline: std::time::Instant) -> (r: Result<
        (),
        SendTimeoutError,
    >) {
        if let Some(promoted) = self.apply(msg) {
            self.last_message.write(Some(promoted));
            self.inner_sender.send_deadline(promoted, deadline)
        } else {
            Ok(())
        }
    }

    /// Passes straight through to the inner sender: the filter does not
    /// influence the queue's state.
    fn is_empty(&self) -> bool {
        self.inner_sender.is_empty()
    }

    /// Passes straight through to the inner sender.
    fn is_full(&self) -> bool {
        self.inner_sender.is_full()
    }

    /// Passes straight through to the inner sender.
    fn len(&self) -> usize {
        self.inner_sender.len()
    }

    /// Passes straight through to the inner sender.
    fn capacity(&self) -> (r: Option<usize>) {
        self.inner_sender.capacity()
    }

    /// Passes straight through to the inner sender.
    fn same_channel(&self, other: &crossbeam_channel::Sender<i64>) -> (r: bool) {
        self.inner_sender.same_channel(other)
    }
}

/// Filters repeating elements.
pub trait DistinctUntilChanged<S, R> {
    /// Filters repeating elements on this channel.
    fn distinct_until_changed(self) -> (PipeSender<S>, R);
}

impl<S: CrossbeamSender + PipelineStage, R> DistinctUntilChanged<S, R> for (S, R) {
    /// Wraps the sender of this channel pair so that it sends
    /// non-repeating elements; the wrapper starts with an empty history.
    fn distinct_until_changed(self) -> (r: (PipeSender<S>, R))
        ensures
            r.0.inner_sender == self.0,
            r.1 == self.1,
    {
        let (sender, receiver) = self;
        (PipeSender { last_message: SharedHistory::new(), inner_sender: sender }, receiver)
    }
}

} // verus!
