use mac_aid::error::InferenceError;
use mac_aid::ollama::OllamaClient;
use mac_aid::retry::{
    generation_result, AttemptOutcome, CallReport, CallResult, RetryAction, RetryPolicy,
};

fn policy() -> RetryPolicy {
    RetryPolicy { max_retries: 5, base_backoff_ms: 1000 }
}

fn status(code: u16) -> AttemptOutcome {
    AttemptOutcome::Response { status: code, body_ok: true }
}

fn exhausted(last_status: Option<u16>) -> CallResult {
    CallResult::Failed(InferenceError::ExhaustedRetries { last_status })
}

#[test]
fn the_client_retries_five_times_from_one_second() {
    let client = OllamaClient::new("m".to_string());
    assert_eq!(client.retry_policy(), policy());
    assert_eq!(
        client.batch_retry_policy(),
        RetryPolicy { max_retries: 5, base_backoff_ms: 500 }
    );
}

#[test]
fn exhausting_all_retries_fails_after_exactly_the_limit() {
    let outcomes = vec![AttemptOutcome::TransportFailure; 5];
    assert_eq!(policy().replay(&outcomes), CallReport { attempts: 5, result: exhausted(None) });
    let outcomes = vec![status(503); 5];
    assert_eq!(
        policy().replay(&outcomes),
        CallReport { attempts: 5, result: exhausted(Some(503)) }
    );
    let outcomes = vec![status(429); 9];
    assert_eq!(
        policy().replay(&outcomes),
        CallReport { attempts: 5, result: exhausted(Some(429)) }
    );
    for limit in 1..8usize {
        let policy = RetryPolicy { max_retries: limit, base_backoff_ms: 1 };
        let outcomes = vec![AttemptOutcome::TransportFailure; 10];
        assert_eq!(policy.replay(&outcomes).attempts, limit);
        assert_eq!(policy.replay(&outcomes).result, exhausted(None));
    }
}

#[test]
fn the_error_of_an_exhausted_call_names_the_last_failure() {
    let outcomes =
        vec![status(500), AttemptOutcome::TransportFailure, status(502), status(429), status(599)];
    assert_eq!(policy().replay(&outcomes).result, exhausted(Some(599)));
    let outcomes =
        vec![status(500), status(500), status(500), status(500), AttemptOutcome::TransportFailure];
    assert_eq!(policy().replay(&outcomes).result, exhausted(None));
}

#[test]
fn a_policy_without_attempts_fails_at_once() {
    let none = RetryPolicy { max_retries: 0, base_backoff_ms: 1000 };
    assert_eq!(none.replay(&[status(200)]), CallReport { attempts: 0, result: exhausted(None) });
    assert_eq!(none.replay(&[]), CallReport { attempts: 0, result: exhausted(None) });
}

#[test]
fn a_success_ends_the_call() {
    let outcomes = vec![AttemptOutcome::TransportFailure, status(429), status(200), status(500)];
    assert_eq!(
        policy().replay(&outcomes),
        CallReport { attempts: 3, result: CallResult::Succeeded }
    );
    assert_eq!(
        policy().replay(&[status(204)]),
        CallReport { attempts: 1, result: CallResult::Succeeded }
    );
}

#[test]
fn a_status_that_is_not_worth_retrying_fails_at_once() {
    for code in [100u16, 199, 300, 301, 400, 401, 404, 428, 430, 499, 600, 999] {
        assert_eq!(
            policy().replay(&[status(code), status(200)]),
            CallReport { attempts: 1, result: CallResult::Failed(InferenceError::Status(code)) }
        );
    }
}

#[test]
fn statuses_429_and_5xx_are_retried() {
    for code in [429u16, 500, 502, 503, 504, 599] {
        assert_eq!(
            policy().after_attempt(0, status(code)),
            RetryAction::Backoff { attempt: 1, base_ms: 1000 }
        );
        assert_eq!(
            policy().replay(&[status(code), status(200)]),
            CallReport { attempts: 2, result: CallResult::Succeeded }
        );
    }
}

#[test]
fn every_2xx_status_is_a_success() {
    for code in [200u16, 201, 250, 299] {
        assert_eq!(policy().after_attempt(0, status(code)), RetryAction::Succeed);
        assert_eq!(policy().after_attempt(4, status(code)), RetryAction::Succeed);
    }
}

#[test]
fn an_unreadable_success_fails_without_retry() {
    let unreadable = AttemptOutcome::Response { status: 200, body_ok: false };
    assert_eq!(
        policy().after_attempt(0, unreadable),
        RetryAction::Fail(InferenceError::MalformedResponse)
    );
    assert_eq!(
        policy().replay(&[unreadable, status(200)]),
        CallReport { attempts: 1, result: CallResult::Failed(InferenceError::MalformedResponse) }
    );
}

#[test]
fn a_call_is_unfinished_while_outcomes_are_missing() {
    assert_eq!(policy().replay(&[]), CallReport { attempts: 0, result: CallResult::Unfinished });
    assert_eq!(
        policy().replay(&[AttemptOutcome::TransportFailure, status(503)]),
        CallReport { attempts: 2, result: CallResult::Unfinished }
    );
}

#[test]
fn the_last_attempt_is_not_followed_by_a_wait() {
    assert_eq!(
        policy().after_attempt(3, AttemptOutcome::TransportFailure),
        RetryAction::Backoff { attempt: 4, base_ms: 8000 }
    );
    assert_eq!(
        policy().after_attempt(4, AttemptOutcome::TransportFailure),
        RetryAction::Fail(InferenceError::ExhaustedRetries { last_status: None })
    );
    assert_eq!(
        policy().after_attempt(4, status(500)),
        RetryAction::Fail(InferenceError::ExhaustedRetries { last_status: Some(500) })
    );
    assert_eq!(
        policy().after_attempt(usize::MAX, status(500)),
        RetryAction::Fail(InferenceError::ExhaustedRetries { last_status: Some(500) })
    );
}

#[test]
fn the_wait_doubles_with_every_attempt() {
    let p = policy();
    assert_eq!(p.backoff_base_ms(0), 1000);
    assert_eq!(p.backoff_base_ms(1), 2000);
    assert_eq!(p.backoff_base_ms(2), 4000);
    assert_eq!(p.backoff_base_ms(3), 8000);
    assert_eq!(p.backoff_base_ms(4), 16000);
    let batch = RetryPolicy { max_retries: 5, base_backoff_ms: 500 };
    assert_eq!(batch.backoff_base_ms(0), 500);
    assert_eq!(batch.backoff_base_ms(4), 8000);
}

#[test]
fn the_wait_is_capped_at_the_largest_delay() {
    let one = RetryPolicy { max_retries: 100, base_backoff_ms: 1 };
    assert_eq!(one.backoff_base_ms(62), 1 << 62);
    assert_eq!(one.backoff_base_ms(63), 1 << 63);
    assert_eq!(one.backoff_base_ms(64), u64::MAX);
    assert_eq!(one.backoff_base_ms(65), u64::MAX);
    assert_eq!(one.backoff_base_ms(usize::MAX), u64::MAX);
    let three = RetryPolicy { max_retries: 100, base_backoff_ms: 3 };
    assert_eq!(three.backoff_base_ms(62), 3 << 62);
    assert_eq!(three.backoff_base_ms(63), u64::MAX);
    let most = RetryPolicy { max_retries: 100, base_backoff_ms: u64::MAX };
    assert_eq!(most.backoff_base_ms(0), u64::MAX);
    assert_eq!(most.backoff_base_ms(1), u64::MAX);
    let zero = RetryPolicy { max_retries: 100, base_backoff_ms: 0 };
    assert_eq!(zero.backoff_base_ms(0), 0);
    assert_eq!(zero.backoff_base_ms(7), 0);
    assert_eq!(zero.backoff_base_ms(1000), 0);
}

#[test]
fn the_delay_is_the_wait_plus_the_jitter() {
    let p = policy();
    assert_eq!(p.backoff_delay_ms(0, 0), 1000);
    assert_eq!(p.backoff_delay_ms(0, 1000), 2000);
    assert_eq!(p.backoff_delay_ms(2, 123), 4123);
    assert_eq!(p.backoff_delay_ms(70, 5), u64::MAX);
    let one = RetryPolicy { max_retries: 100, base_backoff_ms: 1 };
    assert_eq!(one.backoff_delay_ms(63, 1 << 63), u64::MAX);
    assert_eq!(one.backoff_delay_ms(63, (1 << 63) - 1), u64::MAX);
    assert_eq!(one.backoff_delay_ms(63, (1 << 63) - 2), u64::MAX - 1);
}

#[test]
fn the_jitter_is_random_between_zero_and_the_wait() {
    let p = policy();
    let mut least = u64::MAX;
    let mut most = 0;
    for _ in 0..400 {
        let delay = p.next_backoff_ms(2);
        assert!(4000 <= delay && delay <= 8000, "{}", delay);
        least = least.min(delay);
        most = most.max(delay);
    }
    assert!(least < 8000);
    assert!(least < most);
    let zero = RetryPolicy { max_retries: 5, base_backoff_ms: 0 };
    assert_eq!(zero.next_backoff_ms(3), 0);
}

#[test]
fn generation_is_never_retried() {
    assert_eq!(generation_result(status(200)), Ok(()));
    assert_eq!(generation_result(status(299)), Ok(()));
    assert_eq!(generation_result(status(503)), Err(InferenceError::Status(503)));
    assert_eq!(generation_result(status(429)), Err(InferenceError::Status(429)));
    assert_eq!(generation_result(status(404)), Err(InferenceError::Status(404)));
    assert_eq!(generation_result(status(199)), Err(InferenceError::Status(199)));
    assert_eq!(generation_result(status(300)), Err(InferenceError::Status(300)));
    assert_eq!(
        generation_result(AttemptOutcome::Response { status: 200, body_ok: false }),
        Err(InferenceError::MalformedResponse)
    );
    assert_eq!(
        generation_result(AttemptOutcome::Response { status: 500, body_ok: false }),
        Err(InferenceError::Status(500))
    );
    assert_eq!(
        generation_result(AttemptOutcome::TransportFailure),
        Err(InferenceError::Transport)
    );
}

#[test]
fn a_call_may_begin_only_with_attempts_allowed() {
    assert_eq!(policy().begin(), Ok(()));
    assert_eq!(RetryPolicy { max_retries: 1, base_backoff_ms: 0 }.begin(), Ok(()));
    assert_eq!(
        RetryPolicy { max_retries: 0, base_backoff_ms: 1000 }.begin(),
        Err(InferenceError::ExhaustedRetries { last_status: None })
    );
}
