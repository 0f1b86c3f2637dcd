//! Batch embedding as a plan: one batch request for all texts, and, when
//! that request has used up its retries, one single request per text.

use crate::error::InferenceError;
use vstd::prelude::*;

verus! {

/// What the caller does next.
#[derive(Clone, Copy, PartialEq, Eq, Structural, Debug)]
pub enum BatchAction {
    /// Send all texts in one batch request, with admission control, rate
    /// limiting and retries.
    SendBatch,
    /// Send text `index` in a request of its own, with admission control
    /// and retries.
    SendSingle { index: usize },
    /// Return the embeddings gathered, one per text, in order.
    Complete,
    /// Return this error.
    Fail(InferenceError),
}

/// What came back from the request that was pending.
#[derive(Clone, Copy, PartialEq, Eq, Structural, Debug)]
pub enum BatchEvent {
    BatchEmbedded,
    BatchFailed(InferenceError),
    SingleEmbedded,
    SingleFailed(InferenceError),
}

/// A batch embedding call in progress.
#[derive(Clone, Copy, PartialEq, Eq, Structural, Debug)]
pub struct BatchCall {
    /// Number of texts to embed.
    pub count: usize,
    /// The action the caller is performing.
    pub pending: BatchAction,
}

impl BatchAction {
    /// The action asks for a request to the server.
    pub open spec fn is_request(self) -> bool {
        self is SendBatch || self is SendSingle
    }

    /// `event` is an outcome of this action.
    pub open spec fn answered_by(self, event: BatchEvent) -> bool {
        match self {
            BatchAction::SendBatch => event is BatchEmbedded || event is BatchFailed,
            BatchAction::SendSingle { .. } => event is SingleEmbedded || event is SingleFailed,
            BatchAction::Complete => false,
            BatchAction::Fail(_) => false,
        }
    }
}

/// The call for `count` texts as it starts: nothing to send for no texts,
/// else the batch request.
pub open spec fn opening(count: usize) -> BatchCall {
    if count == 0 {
        BatchCall { count, pending: BatchAction::Complete }
    } else {
        BatchCall { count, pending: BatchAction::SendBatch }
    }
}

impl BatchCall {
    /// A pending request is for texts that exist.
    pub open spec fn wf(self) -> bool {
        match self.pending {
            BatchAction::SendBatch => self.count > 0,
            BatchAction::SendSingle { index } => index < self.count,
            BatchAction::Complete => true,
            BatchAction::Fail(_) => self.count > 0,
        }
    }

    /// The action that follows the pending one when `event` comes back. An
    /// event that is no outcome of the pending action changes nothing.
    pub open spec fn next_action(self, event: BatchEvent) -> BatchAction {
        match (self.pending, event) {
            (BatchAction::SendBatch, BatchEvent::BatchEmbedded) => BatchAction::Complete,
            (
                BatchAction::SendBatch,
                BatchEvent::BatchFailed(InferenceError::ExhaustedRetries { .. }),
            ) => BatchAction::SendSingle { index: 0 },
            (BatchAction::SendBatch, BatchEvent::BatchFailed(error)) => BatchAction::Fail(error),
            (BatchAction::SendSingle { index }, BatchEvent::SingleEmbedded) => {
                if index + 1 < self.count {
                    BatchAction::SendSingle { index: (index + 1) as usize }
                } else {
                    BatchAction::Complete
                }
            },
            (BatchAction::SendSingle { index }, BatchEvent::SingleFailed(error)) => {
                BatchAction::Fail(error)
            },
            _ => self.pending,
        }
    }

    /// The call after `event`.
    pub open spec fn next(self, event: BatchEvent) -> BatchCall {
        BatchCall { count: self.count, pending: self.next_action(event) }
    }

    /// The call after the events of `events`, in order.
    pub open spec fn run(self, events: Seq<BatchEvent>) -> BatchCall
        decreases events.len(),
    {
        if events.len() == 0 {
            self
        } else {
            self.run(events.drop_last()).next(events.last())
        }
    }

    /// Tests well-formedness. A call that `begin` opened and only `step`
    /// changed is well formed.
    pub fn is_well_formed(&self) -> (ok: bool)
        ensures
            ok == self.wf(),
    {
        match self.pending {
            BatchAction::SendBatch => self.count > 0,
            BatchAction::SendSingle { index } => index < self.count,
            BatchAction::Complete => true,
            BatchAction::Fail(_) => self.count > 0,
        }
    }

    /// Starts a batch embedding call for `count` texts.
    pub fn begin(count: usize) -> (call: Self)
        ensures
            call == opening(count),
            call.wf(),
    {
        if count == 0 {
            BatchCall { count, pending: BatchAction::Complete }
        } else {
            BatchCall { count, pending: BatchAction::SendBatch }
        }
    }

    /// Takes the outcome of the pending request and returns the action that
    /// follows. A batch request that used up its retries is followed by
    /// single requests; any other failure ends the call.
    pub fn step(&mut self, event: BatchEvent) -> (action: BatchAction)
        requires
            old(self).wf(),
        ensures
            *final(self) == old(self).next(event),
            action == final(self).pending,
            final(self).wf(),
    {
        let action = match (self.pending, event) {
            (BatchAction::SendBatch, BatchEvent::BatchEmbedded) => BatchAction::Complete,
            (
                BatchAction::SendBatch,
                BatchEvent::BatchFailed(InferenceError::ExhaustedRetries { .. }),
            ) => BatchAction::SendSingle { index: 0 },
            (BatchAction::SendBatch, BatchEvent::BatchFailed(error)) => BatchAction::Fail(error),
            (BatchAction::SendSingle { index }, BatchEvent::SingleEmbedded) => {
                if index + 1 < self.count {
                    BatchAction::SendSingle { index: index + 1 }
                } else {
                    BatchAction::Complete
                }
            },
            (BatchAction::SendSingle { index }, BatchEvent::SingleFailed(error)) => {
                BatchAction::Fail(error)
            },
            (pending, _) => pending,
        };
        self.pending = action;
        action
    }
}

/// Embedding no texts is complete at once and stays so: no request is ever
/// asked for, whatever events arrive.
pub proof fn lemma_empty_batch_sends_nothing(events: Seq<BatchEvent>)
    ensures
        opening(0).run(events).pending == BatchAction::Complete,
        !opening(0).run(events).pending.is_request(),
    decreases events.len(),
{
    if events.len() > 0 {
        lemma_empty_batch_sends_nothing(events.drop_last());
    }
}

/// Every request a call asks for is for texts that exist: after any events
/// the pending single request names one of the `count` texts, and a call
/// fails only after a request.
pub proof fn lemma_requests_in_range(count: usize, events: Seq<BatchEvent>)
    ensures
        opening(count).run(events).wf(),
        opening(count).run(events).count == count,
    decreases events.len(),
{
    if events.len() > 0 {
        lemma_requests_in_range(count, events.drop_last());
    }
}

} // verus!
