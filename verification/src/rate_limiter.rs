//! Minimum spacing between calls to the remote service.

use vstd::prelude::*;

verus! {

/// The spacing that the free tier of the service asks for, in milliseconds.
pub const API_RATE_LIMIT_MS: u64 = 15_000;

/// What a caller that wants to call the service has to do.
#[derive(Debug, Clone, Copy, PartialEq, Eq, Structural)]
pub enum RateDecision {
    /// The call may go out now; it has been recorded.
    Proceed,
    /// Nothing was recorded: ask again after this many milliseconds.
    Wait(u64),
}

/// The instant of the last call that was let through, and the spacing to
/// keep from it. All instants are readings of one clock in milliseconds.
#[derive(Debug)]
pub struct RateLimiter {
    min_interval: u64,
    last_call: Option<u64>,
}

/// What the contracts say of a `RateLimiter`.
pub struct RateLimiterView {
    pub min_interval: u64,
    pub last_call: Option<u64>,
}

impl View for RateLimiter {
    type V = RateLimiterView;

    closed spec fn view(&self) -> RateLimiterView {
        RateLimiterView { min_interval: self.min_interval, last_call: self.last_call }
    }
}

/// The earliest instant at which the next call may go out.
pub open spec fn ready_at(limiter: RateLimiterView) -> int {
    match limiter.last_call {
        Some(last) => last + limiter.min_interval,
        None => 0,
    }
}

/// What a request at `now` is told.
pub open spec fn decision_at(limiter: RateLimiterView, now: u64) -> RateDecision {
    if now >= ready_at(limiter) {
        RateDecision::Proceed
    } else if ready_at(limiter) - now > u64::MAX {
        RateDecision::Wait(u64::MAX)
    } else {
        RateDecision::Wait((ready_at(limiter) - now) as u64)
    }
}

/// The limiter after a request at `now`: the instant is recorded exactly
/// if the request is let through.
pub open spec fn after_request(limiter: RateLimiterView, now: u64) -> RateLimiterView {
    if now >= ready_at(limiter) {
        RateLimiterView { min_interval: limiter.min_interval, last_call: Some(now) }
    } else {
        limiter
    }
}

/// The instants, among the requests at `requests` in this order, at which a
/// call is let through.
pub open spec fn granted_instants(limiter: RateLimiterView, requests: Seq<u64>) -> Seq<u64>
    decreases requests.len(),
{
    if requests.len() == 0 {
        Seq::empty()
    } else {
        let rest = granted_instants(after_request(limiter, requests[0]), requests.drop_first());
        if decision_at(limiter, requests[0]) == RateDecision::Proceed {
            seq![requests[0]] + rest
        } else {
            rest
        }
    }
}

impl RateLimiter {
    /// A limiter that has let no call through yet.
    pub fn new(min_interval_ms: u64) -> (limiter: RateLimiter)
        ensures
            limiter@ == (RateLimiterView { min_interval: min_interval_ms, last_call: None }),
    {
        RateLimiter { min_interval: min_interval_ms, last_call: None }
    }

    /// The spacing that this limiter keeps, in milliseconds.
    pub fn min_interval(&self) -> (interval: u64)
        ensures
            interval == self@.min_interval,
    {
        self.min_interval
    }

    /// The instant of the last call that was let through.
    pub fn last_call(&self) -> (last: Option<u64>)
        ensures
            last == self@.last_call,
    {
        self.last_call
    }

    /// Asks to call the service at `now`.
    ///
    /// The call is let through, and `now` recorded, if no call was let
    /// through before or the last one lies at least the minimum interval
    /// back. Otherwise nothing changes and the answer is how long to wait.
    pub fn try_acquire(&mut self, now: u64) -> (decision: RateDecision)
        ensures
            decision == decision_at(old(self)@, now),
            final(self)@ == after_request(old(self)@, now),
    {
        match self.last_call {
            None => {
                self.last_call = Some(now);
                RateDecision::Proceed
            },
            Some(last) => {
                if now >= last && now - last >= self.min_interval {
                    self.last_call = Some(now);
                    RateDecision::Proceed
                } else if now >= last {
                    RateDecision::Wait(self.min_interval - (now - last))
                } else {
                    RateDecision::Wait((last - now).saturating_add(self.min_interval))
                }
            },
        }
    }
}

/// The first call that is let through is not let through before the
/// limiter is ready.
proof fn lemma_granted_first(limiter: RateLimiterView, requests: Seq<u64>)
    ensures
        granted_instants(limiter, requests).len() > 0 ==> granted_instants(limiter, requests)[0]
            >= ready_at(limiter),
    decreases requests.len(),
{
    if requests.len() > 0 {
        lemma_granted_first(after_request(limiter, requests[0]), requests.drop_first());
    }
}

/// No two calls are let through less than the minimum interval apart:
/// whatever the instants at which callers ask, and however many ask, each
/// granted instant lies at least the interval after the one granted before
/// it, and the first one not before the limiter was ready.
pub proof fn lemma_grants_keep_spacing(limiter: RateLimiterView, requests: Seq<u64>, i: int)
    requires
        0 <= i < granted_instants(limiter, requests).len(),
    ensures
        i == 0 ==> granted_instants(limiter, requests)[0] >= ready_at(limiter),
        i > 0 ==> granted_instants(limiter, requests)[i] >= granted_instants(
            limiter,
            requests,
        )[i - 1] + limiter.min_interval,
    decreases requests.len(),
{
    lemma_granted_first(limiter, requests);
    if requests.len() > 0 {
        let next = after_request(limiter, requests[0]);
        let rest = granted_instants(next, requests.drop_first());
        if decision_at(limiter, requests[0]) == RateDecision::Proceed {
            if i >= 1 {
                lemma_granted_first(next, requests.drop_first());
                if i >= 2 {
                    lemma_grants_keep_spacing(next, requests.drop_first(), i - 1);
                }
            }
        } else {
            lemma_grants_keep_spacing(next, requests.drop_first(), i);
        }
    }
}

/// Any two calls that are let through lie at least the minimum interval
/// apart.
pub proof fn lemma_grants_pairwise_spaced(
    limiter: RateLimiterView,
    requests: Seq<u64>,
    i: int,
    j: int,
)
    requires
        0 <= i < j < granted_instants(limiter, requests).len(),
    ensures
        granted_instants(limiter, requests)[j] >= granted_instants(limiter, requests)[i]
            + limiter.min_interval,
    decreases j - i,
{
    lemma_grants_keep_spacing(limiter, requests, j);
    if i < j - 1 {
        lemma_grants_pairwise_spaced(limiter, requests, i, j - 1);
    }
}

} // verus!
