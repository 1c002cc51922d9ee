//! Retrying a failed scan attempt a bounded number of times.
//!
//! The delay between attempts is either fixed or doubles with every retry;
//! the scanning pipeline uses the fixed delay of its configuration.

use crate::errors::{retryable, ScanError, ScanErrorView};
use crate::virus_total::ScanResultView;
use vstd::prelude::*;

verus! {

/// How long to wait before a retry.
#[derive(Debug, Clone, Copy, PartialEq, Eq, Structural)]
pub enum Backoff {
    /// The same number of milliseconds before every retry.
    Fixed(u64),
    /// Two seconds before the first retry, and twice the last delay before
    /// each further one.
    Exponential,
}

/// How often and how fast a failed attempt is repeated.
#[derive(Debug, Clone, Copy, PartialEq, Eq, Structural)]
pub struct RetryPolicy {
    /// How many times an attempt is repeated at most.
    pub max_retries: u32,
    pub backoff: Backoff,
}

/// The attempts made for one scan request.
#[derive(Debug)]
pub struct RetryState {
    policy: RetryPolicy,
    retries: u32,
}

/// What the contracts say of a `RetryState`.
pub struct RetryStateView {
    pub policy: RetryPolicy,
    pub retries: u32,
}

impl View for RetryState {
    type V = RetryStateView;

    closed spec fn view(&self) -> RetryStateView {
        RetryStateView { policy: self.policy, retries: self.retries }
    }
}

/// What follows a failed attempt.
#[derive(Debug, PartialEq, Eq)]
pub enum RetryDecision {
    /// Wait this many milliseconds, then attempt again.
    RetryAfter(u64),
    /// Stop: this is the error of the scan.
    GiveUp(ScanError),
}

/// What the contracts say of a `RetryDecision`.
pub enum RetryDecisionView {
    RetryAfter(u64),
    GiveUp(ScanErrorView),
}

impl View for RetryDecision {
    type V = RetryDecisionView;

    open spec fn view(&self) -> RetryDecisionView {
        match self {
            RetryDecision::RetryAfter(ms) => RetryDecisionView::RetryAfter(*ms),
            RetryDecision::GiveUp(error) => RetryDecisionView::GiveUp(error@),
        }
    }
}

/// Two to the power of `n`.
pub open spec fn pow2(n: nat) -> nat
    decreases n,
{
    if n == 0 {
        1
    } else {
        2 * pow2((n - 1) as nat)
    }
}

/// `n` as a count of 64 bits; the largest such count where `n` is larger.
pub open spec fn capped64(n: nat) -> u64 {
    if n > u64::MAX {
        u64::MAX
    } else {
        n as u64
    }
}

/// The delay in milliseconds before retry number `retry`, counted from 1.
pub open spec fn delay_before(backoff: Backoff, retry: nat) -> u64 {
    match backoff {
        Backoff::Fixed(ms) => ms,
        Backoff::Exponential => capped64(1000 * pow2(retry)),
    }
}

/// What follows a failure with `error` after `retries` retries.
///
/// A failure that no retry can cure is the error of the scan as it is. Any
/// other is retried while retries are left, and wrapped as the last of an
/// exhausted budget when none is.
pub open spec fn decision_after(policy: RetryPolicy, retries: u32, error: ScanErrorView) -> RetryDecisionView {
    if !retryable(error) {
        RetryDecisionView::GiveUp(error)
    } else if retries < policy.max_retries {
        RetryDecisionView::RetryAfter(delay_before(policy.backoff, (retries + 1) as nat))
    } else {
        RetryDecisionView::GiveUp(ScanErrorView::MaxRetriesExceeded(Box::new(error)))
    }
}

/// How a scan request ends when its attempts end as `outcomes` say, in
/// this order, and how many retries that takes. `None` while the request
/// is still under way after the last of them.
pub open spec fn request_outcome(
    policy: RetryPolicy,
    retries: u32,
    outcomes: Seq<Result<ScanResultView, ScanErrorView>>,
) -> (nat, Option<Result<ScanResultView, ScanErrorView>>)
    decreases outcomes.len(),
{
    if outcomes.len() == 0 {
        (0, None)
    } else {
        match outcomes[0] {
            Ok(result) => (0, Some(Ok(result))),
            Err(error) => match decision_after(policy, retries, error) {
                RetryDecisionView::GiveUp(last) => (0, Some(Err(last))),
                RetryDecisionView::RetryAfter(_) => {
                    let rest = request_outcome(
                        policy,
                        (retries + 1) as u32,
                        outcomes.drop_first(),
                    );
                    (rest.0 + 1, rest.1)
                },
            },
        }
    }
}

proof fn lemma_capped_double(n: nat)
    ensures
        capped64(2 * n) == if capped64(n) as nat + capped64(n) as nat > u64::MAX {
            u64::MAX
        } else {
            (capped64(n) + capped64(n)) as u64
        },
{
}

fn exponential_delay(retry: u32) -> (ms: u64)
    ensures
        ms == capped64(1000 * pow2(retry as nat)),
{
    let mut ms: u64 = 1000;
    let mut i: u32 = 0;
    while i < retry
        invariant
            i <= retry,
            ms == capped64(1000 * pow2(i as nat)),
        decreases retry - i,
    {
        proof {
            lemma_capped_double(1000 * pow2(i as nat));
            assert(1000 * pow2((i + 1) as nat) == 2 * (1000 * pow2(i as nat)));
        }
        ms = ms.saturating_add(ms);
        i = i + 1;
    }
    ms
}

impl RetryPolicy {
    /// The delay in milliseconds before retry number `retry`, counted from
    /// 1.
    pub fn delay(&self, retry: u32) -> (ms: u64)
        ensures
            ms == delay_before(self.backoff, retry as nat),
    {
        match self.backoff {
            Backoff::Fixed(ms) => ms,
            Backoff::Exponential => exponential_delay(retry),
        }
    }
}

impl RetryState {
    /// The state of a scan request that has made no attempt yet.
    pub fn new(policy: RetryPolicy) -> (state: RetryState)
        ensures
            state@ == (RetryStateView { policy, retries: 0 }),
    {
        RetryState { policy, retries: 0 }
    }

    /// How many retries were granted so far.
    pub fn retries(&self) -> (count: u32)
        ensures
            count == self@.retries,
    {
        self.retries
    }

    /// The policy that this request follows.
    pub fn policy(&self) -> (policy: RetryPolicy)
        ensures
            policy == self@.policy,
    {
        self.policy
    }

    /// Decides what follows an attempt that failed with `error`, and counts
    /// the retry if one is granted.
    pub fn on_failure(&mut self, error: ScanError) -> (decision: RetryDecision)
        ensures
            decision@ == decision_after(old(self)@.policy, old(self)@.retries, error@),
            final(self)@.policy == old(self)@.policy,
            final(self)@.retries == if decision@ is RetryAfter {
                (old(self)@.retries + 1) as u32
            } else {
                old(self)@.retries
            },
    {
        if !error.is_retryable() {
            RetryDecision::GiveUp(error)
        } else if self.retries < self.policy.max_retries {
            self.retries = self.retries + 1;
            RetryDecision::RetryAfter(self.policy.delay(self.retries))
        } else {
            RetryDecision::GiveUp(ScanError::MaxRetriesExceeded(Box::new(error)))
        }
    }
}

/// When every attempt fails with an error that a retry may cure, a request
/// is retried exactly as often as the policy allows and then fails with
/// `MaxRetriesExceeded` around the error of its last attempt.
pub proof fn lemma_all_attempts_fail(
    policy: RetryPolicy,
    retries: u32,
    outcomes: Seq<Result<ScanResultView, ScanErrorView>>,
)
    requires
        retries <= policy.max_retries,
        outcomes.len() == policy.max_retries - retries + 1,
        forall|i: int| 0 <= i < outcomes.len() ==> (#[trigger] outcomes[i]) is Err && retryable(outcomes[i]->Err_0),
    ensures
        request_outcome(policy, retries, outcomes).0 == policy.max_retries - retries,
        request_outcome(policy, retries, outcomes).1 == Some(
            Err::<ScanResultView, ScanErrorView>(
                ScanErrorView::MaxRetriesExceeded(Box::new(outcomes.last()->Err_0)),
            ),
        ),
    decreases outcomes.len(),
{
    assert(outcomes[0] is Err && retryable(outcomes[0]->Err_0));
    if retries < policy.max_retries {
        let rest = outcomes.drop_first();
        assert forall|i: int| 0 <= i < rest.len() implies (#[trigger] rest[i]) is Err && retryable(
            rest[i]->Err_0,
        ) by {
            assert(rest[i] == outcomes[i + 1]);
        }
        lemma_all_attempts_fail(policy, (retries + 1) as u32, rest);
        assert(rest.last() == outcomes.last());
    }
}

/// When an attempt succeeds after `failed` attempts that each failed with
/// an error that a retry may cure, and the policy allows that many
/// retries, the request succeeds with the record of that attempt after
/// exactly `failed` retries.
pub proof fn lemma_early_success(
    policy: RetryPolicy,
    retries: u32,
    outcomes: Seq<Result<ScanResultView, ScanErrorView>>,
    failed: int,
)
    requires
        0 <= failed < outcomes.len(),
        retries + failed <= policy.max_retries,
        forall|i: int| 0 <= i < failed ==> (#[trigger] outcomes[i]) is Err && retryable(outcomes[i]->Err_0),
        outcomes[failed] is Ok,
    ensures
        request_outcome(policy, retries, outcomes).0 == failed,
        request_outcome(policy, retries, outcomes).1 == Some(outcomes[failed]),
    decreases failed,
{
    if failed > 0 {
        assert(outcomes[0] is Err && retryable(outcomes[0]->Err_0));
        let rest = outcomes.drop_first();
        assert forall|i: int| 0 <= i < failed - 1 implies (#[trigger] rest[i]) is Err && retryable(
            rest[i]->Err_0,
        ) by {
            assert(rest[i] == outcomes[i + 1]);
        }
        assert(rest[failed - 1] == outcomes[failed]);
        lemma_early_success(policy, (retries + 1) as u32, rest, failed - 1);
    }
}

} // verus!
