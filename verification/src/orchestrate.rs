//! The orchestration loop: repeatedly invoke an operation, evaluate its
//! result through a retry decision adapter, and wait between attempts, until
//! the adapter says stop.

use std::ops::ControlFlow;
use vstd::prelude::*;

use crate::adapter::RetryPolicies;
use crate::backoff::BackoffPolicy;
use crate::backoff::LimitedBackoff;
use crate::classify::AlwaysRetry;
use crate::classify::RetryUntil;
use crate::classify::ShouldRetry;

verus! {

/// Whether the operation `op` can produce a result that is still retryable
/// at attempt number `attempts`. Every attempt of the loop that goes on to
/// another one produced such a result.
pub open spec fn some_retryable_outcome<R: ShouldRetry, F: Fn() -> R>(
    op: F,
    attempts: u32,
) -> bool {
    exists|mid: R| call_ensures(op, (), mid) && mid.retryable(attempts)
}

/// Retry a synchronous operation using the given retry decision adapter and
/// sleep function.
///
/// The loop invokes `op`, feeds the result to the adapter, and either
/// returns the result (on a stop decision) or waits through `sleep` for the
/// decided duration and starts over. The contract pins the whole run down:
/// the provider is untouched; the counter grew by one per attempt, so it
/// counts the attempts made; the returned result is one `op` can produce and
/// is the first one whose evaluation stopped: every earlier attempt had
/// backoff budget left (its schedule verdict was retry) and produced a
/// retryable result, and at the last attempt the budget was exhausted or the
/// result was not retryable.
///
/// The counter is a `u32`, so the schedule must exhaust its budget before
/// the counter could overflow: some retry count at or above the current
/// counter, and below `u32::MAX`, gets a stop verdict.
#[verifier::loop_isolation(false)]
pub fn retry<P: BackoffPolicy, R: ShouldRetry, S: Fn(u64), F: Fn() -> R>(
    policy: &mut RetryPolicies<P>,
    sleep: S,
    op: F,
) -> (r: R)
    requires
        call_requires(op, ()),
        forall|w: u64| #[trigger] call_requires(sleep, (w,)),
        exists|n: u32|
            old(policy).amount <= n && n < u32::MAX && !((#[trigger] old(
                policy,
            ).policy.spec_decide(n)) is Retry),
    ensures
        final(policy).policy == old(policy).policy,
        old(policy).amount < final(policy).amount,
        call_ensures(op, (), r),
        !(final(policy).policy.spec_decide((final(policy).amount - 1) as u32) is Retry)
            || !r.retryable(final(policy).amount),
        forall|i: u32|
            old(policy).amount <= i < final(policy).amount - 1
                ==> (#[trigger] final(policy).policy.spec_decide(i)) is Retry,
        forall|a: u32|
            old(policy).amount + 1 <= a <= final(policy).amount - 1
                ==> #[trigger] some_retryable_outcome::<R, F>(op, a),
{
    let ghost start = *policy;
    let ghost bound = choose|n: u32|
        start.amount <= n && n < u32::MAX && !(start.policy.spec_decide(n) is Retry);
    loop
        invariant
            policy.policy == start.policy,
            start.amount <= policy.amount,
            policy.amount <= bound,
            bound < u32::MAX,
            !(policy.policy.spec_decide(bound) is Retry),
            forall|i: u32|
                start.amount <= i < policy.amount ==> (#[trigger] policy.policy.spec_decide(
                    i,
                )) is Retry,
            forall|a: u32|
                start.amount + 1 <= a <= policy.amount ==> #[trigger] some_retryable_outcome::<
                    R,
                    F,
                >(op, a),
        decreases bound - policy.amount,
    {
        let ghost prev = *policy;
        let result = op();
        match policy.should_retry(result) {
            ControlFlow::Continue(wait) => {
                proof {
                    assert(prev.policy.spec_decide(prev.amount) is Retry);
                    assert(result.retryable(((prev.amount + 1) as u32)));
                    assert(some_retryable_outcome::<R, F>(op, ((prev.amount + 1) as u32)));
                    assert(prev.amount != bound);
                }
                sleep(wait);
            },
            ControlFlow::Break(res) => {
                return res;
            },
        }
    }
}

/// Law (exhaustion): for a backoff provider that permits exactly
/// `max_retries` retries and a classifier that always reports retryable, a
/// loop run started on a fresh adapter makes exactly `max_retries + 1`
/// attempts: the counter ends at `max_retries + 1`.
///
/// The premises are what [`retry`] guarantees of such a run: `end` is the
/// final counter, `last` the returned result, every attempt before the last
/// had a retry verdict from the schedule, and the last attempt stopped.
pub proof fn lemma_exhaustion(provider: LimitedBackoff, last: AlwaysRetry, end: u32)
    requires
        provider.max_retries < u32::MAX,
        1 <= end,
        !(provider.spec_decide((end - 1) as u32) is Retry) || !last.retryable(end),
        forall|i: u32| i < end - 1 ==> (#[trigger] provider.spec_decide(i)) is Retry,
    ensures
        end == provider.max_retries + 1,
{
    assert(last.retryable(end));
    assert(end - 1 >= provider.max_retries);
    if end >= provider.max_retries + 2 {
        assert(provider.spec_decide(provider.max_retries) is Retry);
        assert(false);
    }
}

/// Law (early success): for a classifier that reports retryable only while
/// fewer than `threshold.0` attempts were made, with `1 <= threshold.0` and
/// `threshold.0` at most one more than the backoff budget, a loop run
/// started on a fresh adapter stops at attempt `threshold.0`: the counter
/// ends at `threshold.0`, regardless of remaining backoff budget.
///
/// The premises are what [`retry`] guarantees of such a run, for an
/// operation `op` that only produces the value `threshold`.
pub proof fn lemma_early_success<F: Fn() -> RetryUntil>(
    op: F,
    provider: LimitedBackoff,
    threshold: RetryUntil,
    end: u32,
)
    requires
        provider.max_retries < u32::MAX,
        1 <= threshold.0,
        threshold.0 <= provider.max_retries + 1,
        forall|mid: RetryUntil| #[trigger] call_ensures(op, (), mid) ==> mid == threshold,
        1 <= end,
        !(provider.spec_decide((end - 1) as u32) is Retry) || !threshold.retryable(end),
        forall|i: u32| i < end - 1 ==> (#[trigger] provider.spec_decide(i)) is Retry,
        forall|a: u32|
            1 <= a <= end - 1 ==> #[trigger] some_retryable_outcome::<RetryUntil, F>(op, a),
    ensures
        end == threshold.0,
{
    if end >= 2 {
        assert(some_retryable_outcome::<RetryUntil, F>(op, (end - 1) as u32));
        let mid = choose|mid: RetryUntil|
            call_ensures(op, (), mid) && mid.retryable((end - 1) as u32);
        assert(mid == threshold);
        assert(end - 1 < threshold.0);
        assert(provider.spec_decide((end - 2) as u32) is Retry);
        assert(end - 2 < provider.max_retries);
    }
    if threshold.retryable(end) {
        assert(!(provider.spec_decide((end - 1) as u32) is Retry));
        assert(end - 1 >= provider.max_retries);
        assert(false);
    }
}

/// Law (immediate stop): for a classifier that always reports
/// not-retryable, a loop run started on a fresh adapter makes exactly 1
/// attempt: the counter ends at 1, whatever the backoff provider would have
/// permitted.
///
/// The premises are what [`retry`] guarantees of such a run: no attempt
/// before the last can have produced a retryable result when no result of
/// `op`'s type ever classifies as retryable.
pub proof fn lemma_immediate_stop<R: ShouldRetry, F: Fn() -> R>(op: F, end: u32)
    requires
        forall|mid: R, a: u32| !(#[trigger] mid.retryable(a)),
        1 <= end,
        forall|a: u32| 1 <= a <= end - 1 ==> #[trigger] some_retryable_outcome::<R, F>(op, a),
    ensures
        end == 1,
{
    if end >= 2 {
        assert(some_retryable_outcome::<R, F>(op, 1u32));
        let mid = choose|mid: R| call_ensures(op, (), mid) && mid.retryable(1u32);
        assert(false);
    }
}

} // verus!
