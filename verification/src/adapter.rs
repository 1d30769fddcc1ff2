//! The retry decision adapter: owns the attempt counter, consults a backoff
//! policy and an outcome classifier, and merges their verdicts into a single
//! continue-or-stop decision.

use std::ops::ControlFlow;
use vstd::prelude::*;

use crate::backoff::BackoffPolicy;
use crate::backoff::BackoffVerdict;
use crate::classify::ShouldRetry;

verus! {

/// How long to wait before retrying: the time from `now` until
/// `execute_after`, clamped to zero when `execute_after` is not in the
/// future. Both ends are milliseconds since the Unix epoch; the wait is in
/// milliseconds.
pub open spec fn spec_wait_millis(execute_after: i64, now: i64) -> u64 {
    if execute_after <= now {
        0u64
    } else {
        (execute_after - now) as u64
    }
}

/// Compute the wait until `execute_after`, clamped to zero when that point
/// lies at or before `now` (a provider that fires immediately, or clock
/// skew, is not an error).
pub fn wait_millis(execute_after: i64, now: i64) -> (w: u64)
    ensures
        w == spec_wait_millis(execute_after, now),
{
    if execute_after <= now {
        0
    } else {
        ((execute_after as i128) - (now as i128)) as u64
    }
}

/// Relies on chrono::Utc::now and chrono::DateTime::timestamp_millis for the
/// current wall-clock time as milliseconds since the Unix epoch. Nothing is
/// promised of the value: it depends on the clock, not on any argument.
#[verifier::external_body]
fn now_millis() -> i64 {
    chrono::Utc::now().timestamp_millis()
}

/// The retry decision adapter: a backoff decision provider together with the
/// attempt counter for one logical retry sequence.
///
/// The counter starts at 0 (no attempts made) and grows by exactly 1 per
/// evaluation; it is never reset except by constructing a new adapter.
pub struct RetryPolicies<P> {
    /// The backoff decision provider this adapter consults.
    pub policy: P,
    /// How many attempts have been evaluated so far.
    pub amount: u32,
}

impl<P> RetryPolicies<P> {
    /// A fresh adapter around `policy`, with no attempts made yet.
    pub fn new(policy: P) -> (s: Self)
        ensures
            s.policy == policy,
            s.amount == 0,
    {
        Self { policy, amount: 0 }
    }
}

impl<P: BackoffPolicy> RetryPolicies<P> {
    /// The decision this adapter makes, at clock reading `now`, for `result`:
    /// continue (with a clamped wait) exactly when the backoff provider still
    /// permits a retry and the classifier finds the result retryable; stop,
    /// surrendering the result, as soon as either says stop.
    pub open spec fn spec_decision<R: ShouldRetry>(self, result: R, now: i64) -> ControlFlow<
        R,
        u64,
    > {
        match self.policy.spec_decide(self.amount) {
            BackoffVerdict::Retry { execute_after } => {
                if result.retryable((self.amount + 1) as u32) {
                    ControlFlow::Continue(spec_wait_millis(execute_after, now))
                } else {
                    ControlFlow::Break(result)
                }
            },
            BackoffVerdict::Stop => ControlFlow::Break(result),
        }
    }

    /// Evaluate one attempt's `result` against a given clock reading `now`
    /// (milliseconds since epoch): count the attempt, ask the backoff
    /// provider with the number of past retries, ask the classifier with the
    /// new attempt number, and merge the two verdicts.
    pub fn evaluate_at<R: ShouldRetry>(&mut self, result: R, now: i64) -> (c: ControlFlow<R, u64>)
        requires
            old(self).amount < u32::MAX,
        ensures
            final(self).amount == old(self).amount + 1,
            final(self).policy == old(self).policy,
            c == old(self).spec_decision(result, now),
    {
        let attempts = self.amount + 1;
        let past_retries = self.amount;
        self.amount = attempts;
        match self.policy.decide(past_retries) {
            BackoffVerdict::Retry { execute_after } => {
                if result.should_retry(attempts) {
                    ControlFlow::Continue(wait_millis(execute_after, now))
                } else {
                    ControlFlow::Break(result)
                }
            },
            BackoffVerdict::Stop => ControlFlow::Break(result),
        }
    }

    /// Evaluate one attempt's `result` against the wall clock.
    ///
    /// The counted attempt, the continue-or-stop verdict and the surrendered
    /// result do not depend on the clock; only the wait carried by a
    /// continue decision does.
    pub fn should_retry<R: ShouldRetry>(&mut self, result: R) -> (c: ControlFlow<R, u64>)
        requires
            old(self).amount < u32::MAX,
        ensures
            final(self).amount == old(self).amount + 1,
            final(self).policy == old(self).policy,
            exists|now: i64| c == old(self).spec_decision(result, now),
            c is Continue <==> (old(self).policy.spec_decide(old(self).amount) is Retry
                && result.retryable((old(self).amount + 1) as u32)),
            c is Break ==> c == ControlFlow::<R, u64>::Break(result),
    {
        let now = now_millis();
        let c = self.evaluate_at(result, now);
        proof {
            assert(c == old(self).spec_decision(result, now));
        }
        c
    }
}

/// Law: `Continue` is produced if and only if the backoff provider says
/// retry and the classifier says retryable; any other combination produces a
/// stop decision carrying the result unchanged.
pub proof fn lemma_and_merge<P: BackoffPolicy, R: ShouldRetry>(
    adapter: RetryPolicies<P>,
    result: R,
    now: i64,
)
    ensures
        adapter.spec_decision(result, now) is Continue <==> (adapter.policy.spec_decide(
            adapter.amount,
        ) is Retry && result.retryable((adapter.amount + 1) as u32)),
        !(adapter.policy.spec_decide(adapter.amount) is Retry && result.retryable(
            (adapter.amount + 1) as u32,
        )) ==> adapter.spec_decision(result, now) == ControlFlow::<R, u64>::Break(result),
{
}

/// Law: for any `execute_after` at or before `now`, the computed wait is
/// exactly zero; and a wait is never negative.
pub proof fn lemma_nonnegative_wait(execute_after: i64, now: i64)
    ensures
        execute_after <= now ==> spec_wait_millis(execute_after, now) == 0,
        spec_wait_millis(execute_after, now) >= 0,
{
}

/// Law: across any sequence of evaluations on one adapter instance, the
/// attempt counter strictly increases by 1 per evaluation and never
/// decreases. `amounts` is the counter's trace: each evaluation adds exactly
/// 1 (the step each evaluation guarantees), so between any two points of the
/// trace the counter has grown by exactly their distance.
pub proof fn lemma_counter_monotonic(amounts: Seq<u32>)
    requires
        forall|k: int| 0 <= k < amounts.len() - 1 ==> amounts[k + 1] == (#[trigger] amounts[k]) + 1,
    ensures
        forall|j: int, k: int|
            0 <= j <= k < amounts.len() ==> #[trigger] amounts[k] == (#[trigger] amounts[j]) + (k
                - j),
        forall|j: int, k: int|
            0 <= j < k < amounts.len() ==> #[trigger] amounts[j] < #[trigger] amounts[k],
{
    assert forall|j: int, k: int|
        0 <= j <= k < amounts.len() implies #[trigger] amounts[k] == (#[trigger] amounts[j]) + (k
        - j) by {
        lemma_counter_offset(amounts, j, k);
    }
}

proof fn lemma_counter_offset(amounts: Seq<u32>, j: int, k: int)
    requires
        forall|m: int| 0 <= m < amounts.len() - 1 ==> amounts[m + 1] == (#[trigger] amounts[m]) + 1,
        0 <= j <= k < amounts.len(),
    ensures
        amounts[k] == amounts[j] + (k - j),
    decreases k - j,
{
    if j < k {
        lemma_counter_offset(amounts, j, k - 1);
    }
}

} // verus!
