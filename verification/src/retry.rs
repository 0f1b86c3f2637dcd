//! Retry with exponential backoff and jitter for embedding calls: what to do
//! after each attempt, and how long to wait before the next one. The caller
//! sends the requests and sleeps; the rules are here.

use crate::error::InferenceError;
use vstd::arithmetic::power2::{
    lemma2_to64,
    lemma_pow2_pos,
    lemma_pow2_strictly_increases,
    lemma_pow2_unfold,
    pow2,
};
use vstd::prelude::*;

verus! {

/// What one attempt to reach the server brought back.
#[derive(Clone, Copy, PartialEq, Eq, Structural, Debug)]
pub enum AttemptOutcome {
    /// A response with this HTTP status. `body_ok` says whether its body
    /// could be read as the expected reply.
    Response { status: u16, body_ok: bool },
    /// No response: the request failed in transport.
    TransportFailure,
}

/// What the caller does next.
#[derive(Clone, Copy, PartialEq, Eq, Structural, Debug)]
pub enum RetryAction {
    /// Hand the reply to the caller.
    Succeed,
    /// Wait `base_ms` milliseconds plus a random jitter of at most `base_ms`,
    /// then make attempt number `attempt`.
    Backoff { attempt: usize, base_ms: u64 },
    /// Give up with this error.
    Fail(InferenceError),
}

/// How an embedding call is retried.
#[derive(Clone, Copy, PartialEq, Eq, Structural, Debug)]
pub struct RetryPolicy {
    /// Attempts allowed in all.
    pub max_retries: usize,
    /// Waiting time before the second attempt, without jitter, in
    /// milliseconds; it doubles with every further attempt.
    pub base_backoff_ms: u64,
}

/// The call ended, and how; or `outcomes` ran out while it was still being
/// retried.
#[derive(Clone, Copy, PartialEq, Eq, Structural, Debug)]
pub enum CallResult {
    Succeeded,
    Failed(InferenceError),
    Unfinished,
}

/// How a call went: the number of attempts made and the result.
#[derive(Clone, Copy, PartialEq, Eq, Structural, Debug)]
pub struct CallReport {
    pub attempts: usize,
    pub result: CallResult,
}

/// Statuses 200 to 299.
pub open spec fn is_success(status: u16) -> bool {
    200 <= status <= 299
}

/// Statuses worth another attempt: 429 and 500 to 599.
pub open spec fn is_retryable(status: u16) -> bool {
    status == 429 || 500 <= status <= 599
}

/// The attempt failed in a way that another attempt may mend.
pub open spec fn is_transient(outcome: AttemptOutcome) -> bool {
    match outcome {
        AttemptOutcome::Response { status, body_ok } => !is_success(status) && is_retryable(status),
        AttemptOutcome::TransportFailure => true,
    }
}

/// `base_ms * 2^attempt`, capped at the largest representable delay.
pub open spec fn backoff_base(base_ms: u64, attempt: nat) -> int {
    if base_ms * pow2(attempt) > u64::MAX {
        u64::MAX as int
    } else {
        base_ms * pow2(attempt)
    }
}

/// The waiting time after attempt `attempt` with the given jitter:
/// `base_ms * 2^attempt + jitter`, capped at the largest representable delay.
pub open spec fn backoff_total(base_ms: u64, attempt: nat, jitter: u64) -> int {
    if backoff_base(base_ms, attempt) + jitter > u64::MAX {
        u64::MAX as int
    } else {
        backoff_base(base_ms, attempt) + jitter
    }
}

/// The result of a call that is made once and never retried.
pub open spec fn single_result(outcome: AttemptOutcome) -> Result<(), InferenceError> {
    match outcome {
        AttemptOutcome::Response { status, body_ok } => if !is_success(status) {
            Err(InferenceError::Status(status))
        } else if body_ok {
            Ok(())
        } else {
            Err(InferenceError::MalformedResponse)
        },
        AttemptOutcome::TransportFailure => Err(InferenceError::Transport),
    }
}

/// The result of a text-generation call, which is made once: any failure
/// surfaces at once, with the status as the server sent it.
pub fn generation_result(outcome: AttemptOutcome) -> (result: Result<(), InferenceError>)
    ensures
        result == single_result(outcome),
{
    match outcome {
        AttemptOutcome::Response { status, body_ok } => {
            if status < 200 || status > 299 {
                Err(InferenceError::Status(status))
            } else if body_ok {
                Ok(())
            } else {
                Err(InferenceError::MalformedResponse)
            }
        },
        AttemptOutcome::TransportFailure => Err(InferenceError::Transport),
    }
}

/// Assumed, not proved: `rand::Rng::gen_range` on the thread-local generator
/// of `rand::thread_rng`, asked for a number from `0..=bound`, returns a
/// number that lies in that range. Nothing is claimed of how the numbers are
/// distributed, and two calls may differ.
#[verifier::external_body]
fn random_up_to(bound: u64) -> (jitter: u64)
    ensures
        jitter <= bound,
{
    rand::Rng::gen_range(&mut rand::thread_rng(), 0..=bound)
}

proof fn lemma_backoff_doubles(base_ms: u64, attempt: nat)
    ensures
        base_ms * pow2(attempt + 1) == 2 * (base_ms * pow2(attempt)),
{
    lemma_pow2_unfold(attempt + 1);
    assert(base_ms * (2 * pow2(attempt)) == 2 * (base_ms * pow2(attempt))) by (nonlinear_arith);
}

proof fn lemma_backoff_saturates(base_ms: u64, attempt: nat)
    requires
        base_ms > 0,
        attempt >= 64,
    ensures
        backoff_base(base_ms, attempt) == u64::MAX,
{
    lemma2_to64();
    if attempt > 64 {
        lemma_pow2_strictly_increases(64, attempt);
    }
    let p = pow2(attempt);
    assert(base_ms * p >= p) by (nonlinear_arith)
        requires
            base_ms >= 1,
            p >= 0,
    ;
}

impl RetryPolicy {
    /// What follows attempt number `attempt`, counted from 0, when it
    /// brought `outcome`.
    pub open spec fn decide(self, attempt: usize, outcome: AttemptOutcome) -> RetryAction {
        match outcome {
            AttemptOutcome::Response { status, body_ok } => {
                if is_success(status) {
                    if body_ok {
                        RetryAction::Succeed
                    } else {
                        RetryAction::Fail(InferenceError::MalformedResponse)
                    }
                } else if is_retryable(status) {
                    if attempt + 1 >= self.max_retries {
                        RetryAction::Fail(
                            InferenceError::ExhaustedRetries { last_status: Some(status) },
                        )
                    } else {
                        RetryAction::Backoff {
                            attempt: (attempt + 1) as usize,
                            base_ms: backoff_base(self.base_backoff_ms, attempt as nat) as u64,
                        }
                    }
                } else {
                    RetryAction::Fail(InferenceError::Status(status))
                }
            },
            AttemptOutcome::TransportFailure => {
                if attempt + 1 >= self.max_retries {
                    RetryAction::Fail(InferenceError::ExhaustedRetries { last_status: None })
                } else {
                    RetryAction::Backoff {
                        attempt: (attempt + 1) as usize,
                        base_ms: backoff_base(self.base_backoff_ms, attempt as nat) as u64,
                    }
                }
            },
        }
    }

    /// The call as it goes from attempt number `attempt` on, when the
    /// attempts bring `outcomes` in order.
    pub open spec fn outcome_from(self, outcomes: Seq<AttemptOutcome>, attempt: usize) -> CallReport
        decreases outcomes.len() - attempt,
    {
        if attempt >= self.max_retries {
            CallReport {
                attempts: attempt,
                result: CallResult::Failed(InferenceError::ExhaustedRetries { last_status: None }),
            }
        } else if attempt >= outcomes.len() {
            CallReport { attempts: attempt, result: CallResult::Unfinished }
        } else {
            match self.decide(attempt, outcomes[attempt as int]) {
                RetryAction::Succeed => CallReport {
                    attempts: (attempt + 1) as usize,
                    result: CallResult::Succeeded,
                },
                RetryAction::Fail(error) => CallReport {
                    attempts: (attempt + 1) as usize,
                    result: CallResult::Failed(error),
                },
                RetryAction::Backoff { .. } => self.outcome_from(outcomes, (attempt + 1) as usize),
            }
        }
    }

    /// Whether a first attempt may be made: a policy that allows no attempt
    /// fails the call before anything is sent.
    pub fn begin(&self) -> (start: Result<(), InferenceError>)
        ensures
            match start {
                Ok(()) => self.max_retries > 0,
                Err(error) => self.max_retries == 0 && error == (InferenceError::ExhaustedRetries {
                    last_status: None,
                }),
            },
    {
        if self.max_retries == 0 {
            Err(InferenceError::ExhaustedRetries { last_status: None })
        } else {
            Ok(())
        }
    }

    /// The waiting time before the attempt that follows attempt `attempt`,
    /// without jitter.
    pub fn backoff_base_ms(&self, attempt: usize) -> (ms: u64)
        ensures
            ms == backoff_base(self.base_backoff_ms, attempt as nat),
    {
        let base = self.base_backoff_ms;
        if base == 0 {
            assert(base * pow2(attempt as nat) == 0) by (nonlinear_arith)
                requires
                    base == 0,
            ;
            return 0;
        }
        if attempt >= 64 {
            proof {
                lemma_backoff_saturates(base, attempt as nat);
            }
            return u64::MAX;
        }
        let mut value: u64 = base;
        let mut i: usize = 0;
        proof {
            lemma2_to64();
            assert(base * pow2(0) == base) by (nonlinear_arith)
                requires
                    pow2(0) == 1,
            ;
        }
        while i < attempt
            invariant
                i <= attempt,
                value == backoff_base(base, i as nat),
            decreases attempt - i,
        {
            proof {
                lemma_backoff_doubles(base, i as nat);
            }
            value = if value > u64::MAX / 2 {
                u64::MAX
            } else {
                value * 2
            };
            i = i + 1;
        }
        value
    }

    /// The waiting time before the attempt that follows attempt `attempt`,
    /// with `jitter` added.
    pub fn backoff_delay_ms(&self, attempt: usize, jitter: u64) -> (ms: u64)
        ensures
            ms == backoff_total(self.base_backoff_ms, attempt as nat, jitter),
    {
        self.backoff_base_ms(attempt).saturating_add(jitter)
    }

    /// The waiting time before the attempt that follows attempt `attempt`,
    /// with a jitter drawn at random from zero up to the waiting time
    /// without jitter.
    pub fn next_backoff_ms(&self, attempt: usize) -> (ms: u64)
        ensures
            exists|jitter: u64|
                jitter <= backoff_base(self.base_backoff_ms, attempt as nat) && ms
                    == #[trigger] backoff_total(self.base_backoff_ms, attempt as nat, jitter),
            backoff_base(self.base_backoff_ms, attempt as nat) <= ms <= 2 * backoff_base(
                self.base_backoff_ms,
                attempt as nat,
            ),
    {
        let base = self.backoff_base_ms(attempt);
        let jitter = random_up_to(base);
        proof {
            lemma_backoff_bounds(self.base_backoff_ms, attempt as nat, jitter);
        }
        self.backoff_delay_ms(attempt, jitter)
    }

    /// Decides what follows attempt number `attempt`, counted from 0, when
    /// it brought `outcome`: success on a readable 2xx reply; another
    /// attempt after a transport failure or a 429 or 5xx status while
    /// attempts are left; failure otherwise.
    pub fn after_attempt(&self, attempt: usize, outcome: AttemptOutcome) -> (action: RetryAction)
        ensures
            action == self.decide(attempt, outcome),
    {
        let last = self.max_retries == 0 || attempt >= self.max_retries - 1;
        match outcome {
            AttemptOutcome::Response { status, body_ok } => {
                if status >= 200 && status <= 299 {
                    if body_ok {
                        RetryAction::Succeed
                    } else {
                        RetryAction::Fail(InferenceError::MalformedResponse)
                    }
                } else if status == 429 || (status >= 500 && status <= 599) {
                    if last {
                        RetryAction::Fail(
                            InferenceError::ExhaustedRetries { last_status: Some(status) },
                        )
                    } else {
                        RetryAction::Backoff {
                            attempt: attempt + 1,
                            base_ms: self.backoff_base_ms(attempt),
                        }
                    }
                } else {
                    RetryAction::Fail(InferenceError::Status(status))
                }
            },
            AttemptOutcome::TransportFailure => {
                if last {
                    RetryAction::Fail(InferenceError::ExhaustedRetries { last_status: None })
                } else {
                    RetryAction::Backoff {
                        attempt: attempt + 1,
                        base_ms: self.backoff_base_ms(attempt),
                    }
                }
            },
        }
    }

    /// Plays a call through for attempts that bring `outcomes` in order,
    /// and says how many attempts were made and how the call ended.
    pub fn replay(&self, outcomes: &[AttemptOutcome]) -> (report: CallReport)
        ensures
            report == self.outcome_from(outcomes@, 0),
    {
        let mut attempt: usize = 0;
        loop
            invariant
                self.outcome_from(outcomes@, 0) == self.outcome_from(outcomes@, attempt),
            decreases outcomes.len() - attempt,
        {
            if attempt >= self.max_retries {
                return CallReport {
                    attempts: attempt,
                    result: CallResult::Failed(
                        InferenceError::ExhaustedRetries { last_status: None },
                    ),
                };
            }
            if attempt >= outcomes.len() {
                return CallReport { attempts: attempt, result: CallResult::Unfinished };
            }
            match self.after_attempt(attempt, outcomes[attempt]) {
                RetryAction::Succeed => {
                    return CallReport { attempts: attempt + 1, result: CallResult::Succeeded };
                },
                RetryAction::Fail(error) => {
                    return CallReport { attempts: attempt + 1, result: CallResult::Failed(error) };
                },
                RetryAction::Backoff { .. } => {
                    attempt = attempt + 1;
                },
            }
        }
    }
}

/// A call never makes more attempts than the policy allows.
pub proof fn lemma_attempts_bounded(
    policy: RetryPolicy,
    outcomes: Seq<AttemptOutcome>,
    attempt: usize,
)
    requires
        attempt <= policy.max_retries,
    ensures
        attempt <= policy.outcome_from(outcomes, attempt).attempts <= policy.max_retries,
    decreases outcomes.len() - attempt,
{
    if attempt < policy.max_retries && attempt < outcomes.len() {
        if policy.decide(attempt, outcomes[attempt as int]) is Backoff {
            lemma_attempts_bounded(policy, outcomes, (attempt + 1) as usize);
        }
    }
}

/// When every attempt fails in a way that is worth retrying, the call fails
/// with `ExhaustedRetries` after exactly `max_retries` attempts.
pub proof fn lemma_exhausted_after_max_retries(policy: RetryPolicy, outcomes: Seq<AttemptOutcome>)
    requires
        outcomes.len() >= policy.max_retries,
        forall|i: int| 0 <= i < policy.max_retries ==> is_transient(#[trigger] outcomes[i]),
    ensures
        policy.outcome_from(outcomes, 0).attempts == policy.max_retries,
        policy.outcome_from(outcomes, 0).result matches CallResult::Failed(
            InferenceError::ExhaustedRetries { .. },
        ),
{
    lemma_exhausted_from(policy, outcomes, 0);
}

proof fn lemma_exhausted_from(policy: RetryPolicy, outcomes: Seq<AttemptOutcome>, attempt: usize)
    requires
        attempt <= policy.max_retries,
        outcomes.len() >= policy.max_retries,
        forall|i: int| 0 <= i < policy.max_retries ==> is_transient(#[trigger] outcomes[i]),
    ensures
        policy.outcome_from(outcomes, attempt).attempts == policy.max_retries,
        policy.outcome_from(outcomes, attempt).result matches CallResult::Failed(
            InferenceError::ExhaustedRetries { .. },
        ),
    decreases policy.max_retries - attempt,
{
    if attempt < policy.max_retries {
        if attempt + 1 < policy.max_retries {
            lemma_exhausted_from(policy, outcomes, (attempt + 1) as usize);
        }
    }
}

/// The first attempt that brings a readable success ends the call with
/// success, after as many attempts as it took.
pub proof fn lemma_success_ends_call(policy: RetryPolicy, outcomes: Seq<AttemptOutcome>, at: usize)
    requires
        at < policy.max_retries,
        at < outcomes.len(),
        forall|i: int| 0 <= i < at ==> is_transient(#[trigger] outcomes[i]),
        outcomes[at as int] matches AttemptOutcome::Response { status, body_ok } && is_success(
            status,
        ) && body_ok,
    ensures
        policy.outcome_from(outcomes, 0) == (CallReport {
            attempts: (at + 1) as usize,
            result: CallResult::Succeeded,
        }),
{
    lemma_success_from(policy, outcomes, at, 0);
}

proof fn lemma_success_from(
    policy: RetryPolicy,
    outcomes: Seq<AttemptOutcome>,
    at: usize,
    attempt: usize,
)
    requires
        attempt <= at < policy.max_retries,
        at < outcomes.len(),
        forall|i: int| 0 <= i < at ==> is_transient(#[trigger] outcomes[i]),
        outcomes[at as int] matches AttemptOutcome::Response { status, body_ok } && is_success(
            status,
        ) && body_ok,
    ensures
        policy.outcome_from(outcomes, attempt) == (CallReport {
            attempts: (at + 1) as usize,
            result: CallResult::Succeeded,
        }),
    decreases at - attempt,
{
    if attempt < at {
        lemma_success_from(policy, outcomes, at, (attempt + 1) as usize);
    }
}

/// The wait never shrinks from one attempt to the next, and the delay with
/// a jitter of at most the wait lies between the wait and twice the wait.
pub proof fn lemma_backoff_bounds(base_ms: u64, attempt: nat, jitter: u64)
    requires
        jitter <= backoff_base(base_ms, attempt),
    ensures
        base_ms <= backoff_base(base_ms, attempt) <= backoff_base(base_ms, attempt + 1),
        backoff_base(base_ms, attempt) <= backoff_total(base_ms, attempt, jitter) <= 2
            * backoff_base(base_ms, attempt),
        backoff_total(base_ms, attempt, jitter) <= u64::MAX,
{
    lemma_backoff_doubles(base_ms, attempt);
    lemma_pow2_pos(attempt);
    let p = pow2(attempt);
    assert(base_ms * p >= base_ms) by (nonlinear_arith)
        requires
            p >= 1,
            base_ms >= 0,
    ;
}

} // verus!
