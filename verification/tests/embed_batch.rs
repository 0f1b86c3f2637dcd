use mac_aid::embed_batch::{BatchAction, BatchCall, BatchEvent};
use mac_aid::error::InferenceError;

const EXHAUSTED: InferenceError = InferenceError::ExhaustedRetries { last_status: Some(503) };

#[test]
fn an_empty_batch_is_complete_without_any_request() {
    let mut call = BatchCall::begin(0);
    assert_eq!(call.pending, BatchAction::Complete);
    assert_eq!(call.count, 0);
    for event in [
        BatchEvent::BatchEmbedded,
        BatchEvent::BatchFailed(EXHAUSTED),
        BatchEvent::SingleEmbedded,
        BatchEvent::SingleFailed(InferenceError::Transport),
        BatchEvent::BatchFailed(InferenceError::Status(400)),
    ] {
        assert_eq!(call.step(event), BatchAction::Complete);
        assert_eq!(call, BatchCall::begin(0));
    }
}

#[test]
fn a_batch_starts_with_one_batch_request() {
    let mut call = BatchCall::begin(3);
    assert_eq!(call.pending, BatchAction::SendBatch);
    assert_eq!(call.step(BatchEvent::BatchEmbedded), BatchAction::Complete);
    assert_eq!(call.step(BatchEvent::BatchEmbedded), BatchAction::Complete);
    assert_eq!(call.count, 3);
}

#[test]
fn an_exhausted_batch_request_falls_back_to_single_requests() {
    let mut call = BatchCall::begin(3);
    assert_eq!(call.step(BatchEvent::BatchFailed(EXHAUSTED)), BatchAction::SendSingle { index: 0 });
    assert_eq!(call.step(BatchEvent::SingleEmbedded), BatchAction::SendSingle { index: 1 });
    assert_eq!(call.step(BatchEvent::SingleEmbedded), BatchAction::SendSingle { index: 2 });
    assert_eq!(call.step(BatchEvent::SingleEmbedded), BatchAction::Complete);
    assert_eq!(call.step(BatchEvent::SingleEmbedded), BatchAction::Complete);

    let mut one = BatchCall::begin(1);
    let exhausted = InferenceError::ExhaustedRetries { last_status: None };
    assert_eq!(one.step(BatchEvent::BatchFailed(exhausted)), BatchAction::SendSingle { index: 0 });
    assert_eq!(one.step(BatchEvent::SingleEmbedded), BatchAction::Complete);
}

#[test]
fn a_failed_single_request_fails_the_call() {
    let mut call = BatchCall::begin(3);
    call.step(BatchEvent::BatchFailed(EXHAUSTED));
    call.step(BatchEvent::SingleEmbedded);
    let error = InferenceError::Status(404);
    assert_eq!(call.step(BatchEvent::SingleFailed(error)), BatchAction::Fail(error));
    assert_eq!(call.step(BatchEvent::SingleEmbedded), BatchAction::Fail(error));
    assert_eq!(call.step(BatchEvent::BatchEmbedded), BatchAction::Fail(error));
}

#[test]
fn a_batch_request_that_fails_otherwise_fails_the_call() {
    for error in [
        InferenceError::Status(400),
        InferenceError::Transport,
        InferenceError::MalformedResponse,
    ] {
        let mut call = BatchCall::begin(2);
        assert_eq!(call.step(BatchEvent::BatchFailed(error)), BatchAction::Fail(error));
    }
}

#[test]
fn a_batch_call_ignores_an_event_that_answers_nothing() {
    let mut call = BatchCall::begin(2);
    assert_eq!(call.step(BatchEvent::SingleEmbedded), BatchAction::SendBatch);
    assert_eq!(call.step(BatchEvent::SingleFailed(EXHAUSTED)), BatchAction::SendBatch);
    call.step(BatchEvent::BatchFailed(EXHAUSTED));
    assert_eq!(call.step(BatchEvent::BatchEmbedded), BatchAction::SendSingle { index: 0 });
    assert_eq!(call.step(BatchEvent::BatchFailed(EXHAUSTED)), BatchAction::SendSingle { index: 0 });
}

#[test]
fn a_forged_batch_call_is_not_well_formed() {
    let mut call = BatchCall::begin(2);
    assert!(call.is_well_formed());
    call.step(BatchEvent::BatchFailed(EXHAUSTED));
    assert!(call.is_well_formed());
    call.pending = BatchAction::SendSingle { index: 2 };
    assert!(!call.is_well_formed());
    let mut empty = BatchCall::begin(0);
    assert!(empty.is_well_formed());
    empty.pending = BatchAction::SendBatch;
    assert!(!empty.is_well_formed());
}
