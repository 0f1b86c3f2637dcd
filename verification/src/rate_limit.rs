//! Pacing of batch embedding requests: a minimum interval between one
//! request and the next, derived from a ceiling on requests per second. The
//! caller reads the clock and sleeps.

use vstd::prelude::*;

verus! {

/// The time of the last request and the interval to keep after it. One
/// limiter belongs to one client; the caller holds it behind a lock.
#[derive(Clone, Copy, PartialEq, Eq, Structural, Debug)]
pub struct RateLimiter {
    /// Least number of milliseconds between two requests.
    pub min_interval_ms: u64,
    /// When the last request was sent, on the caller's millisecond clock.
    pub last_request_ms: Option<u64>,
}

/// The least interval between requests, in milliseconds, under a ceiling of
/// `requests_per_second`.
pub open spec fn interval_for(requests_per_second: u32) -> int {
    1000int / (requests_per_second as int)
}

impl RateLimiter {
    /// How long a request that is ready at `now_ms` has to wait: the rest of
    /// the interval since the last request, or nothing when the interval has
    /// passed or no request was sent yet. A clock that reads earlier than
    /// the last request counts as no time passed.
    pub open spec fn wait_needed(self, now_ms: u64) -> int {
        match self.last_request_ms {
            Some(last) => {
                let elapsed = if now_ms >= last {
                    now_ms - last
                } else {
                    0
                };
                if elapsed >= self.min_interval_ms {
                    0
                } else {
                    self.min_interval_ms - elapsed
                }
            },
            None => 0,
        }
    }

    /// A limiter for a ceiling of `requests_per_second`, or `None` for a
    /// ceiling of zero, under which no request could ever be sent.
    pub fn new(requests_per_second: u32) -> (limiter: Option<Self>)
        ensures
            requests_per_second == 0 <==> limiter is None,
            limiter matches Some(l) ==> l.min_interval_ms == interval_for(requests_per_second)
                && l.last_request_ms is None,
    {
        if requests_per_second == 0 {
            None
        } else {
            Some(
                RateLimiter {
                    min_interval_ms: 1000 / (requests_per_second as u64),
                    last_request_ms: None,
                },
            )
        }
    }

    /// The milliseconds to sleep before a request that is ready at `now_ms`.
    pub fn wait_ms(&self, now_ms: u64) -> (wait: u64)
        ensures
            wait == self.wait_needed(now_ms),
    {
        match self.last_request_ms {
            Some(last) => {
                let elapsed = if now_ms >= last {
                    now_ms - last
                } else {
                    0
                };
                if elapsed >= self.min_interval_ms {
                    0
                } else {
                    self.min_interval_ms - elapsed
                }
            },
            None => 0,
        }
    }

    /// Notes that a request was sent at `sent_at_ms`.
    pub fn record_request(&mut self, sent_at_ms: u64)
        ensures
            final(self).last_request_ms == Some(sent_at_ms),
            final(self).min_interval_ms == old(self).min_interval_ms,
    {
        self.last_request_ms = Some(sent_at_ms);
    }
}

/// On a clock that does not run backwards, a request that sleeps for the
/// time `wait_ms` gives is then free to go, and goes no sooner than the
/// minimum interval after the last one.
pub proof fn lemma_wait_suffices(limiter: RateLimiter, now_ms: u64)
    requires
        limiter.last_request_ms matches Some(last) ==> now_ms >= last,
        now_ms + limiter.wait_needed(now_ms) <= u64::MAX,
    ensures
        limiter.wait_needed((now_ms + limiter.wait_needed(now_ms)) as u64) == 0,
        limiter.last_request_ms matches Some(last) ==> now_ms + limiter.wait_needed(now_ms) - last
            >= limiter.min_interval_ms,
{
}

/// The wait is never longer than the minimum interval, and it is zero
/// before the first request.
pub proof fn lemma_wait_bounded(limiter: RateLimiter, now_ms: u64)
    ensures
        0 <= limiter.wait_needed(now_ms) <= limiter.min_interval_ms,
        limiter.last_request_ms is None ==> limiter.wait_needed(now_ms) == 0,
{
}

} // verus!
