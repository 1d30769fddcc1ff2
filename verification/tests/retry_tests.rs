use std::ops::ControlFlow;

use retry_core::AlwaysRetry;
use retry_core::LimitedBackoff;
use retry_core::NeverRetry;
use retry_core::RetryPolicies;
use retry_core::RetryUntil;
use retry_core::ShouldRetry;
use retry_core::retry;
use retry_core::wait_millis;

fn sleep(_: u64) {}

#[test]
fn retries() {
    let backoff = LimitedBackoff { max_retries: 3, execute_after: 0 };

    let mut policy = RetryPolicies::new(backoff);
    let _: AlwaysRetry = retry(&mut policy, sleep, || AlwaysRetry);

    assert_eq!(policy.amount, 4); // 4 total attempts
}

#[test]
fn eventually_succeed() {
    let backoff = LimitedBackoff { max_retries: 3, execute_after: 0 };

    let mut policy = RetryPolicies::new(backoff);
    retry(&mut policy, sleep, || RetryUntil(2));

    assert_eq!(policy.amount, 2); // succeeds after 2 attempts
}

#[test]
fn immediately_succeed() {
    let backoff = LimitedBackoff { max_retries: 3, execute_after: 0 };

    let mut policy = RetryPolicies::new(backoff);
    retry(&mut policy, sleep, || NeverRetry);

    assert_eq!(policy.amount, 1); // only 1 attempt
}

#[test]
fn exhaustion_without_budget() {
    // A provider that permits zero retries stops the loop after one attempt
    // even when every result is retryable.
    let mut policy = RetryPolicies::new(LimitedBackoff { max_retries: 0, execute_after: 0 });
    retry(&mut policy, sleep, || AlwaysRetry);
    assert_eq!(policy.amount, 1);
}

#[test]
fn and_merge_of_the_two_verdicts() {
    // Continue comes exactly when the schedule has budget and the outcome is
    // retryable; either verdict alone saying stop produces Break.
    let mut with_budget = RetryPolicies::new(LimitedBackoff { max_retries: 5, execute_after: 0 });
    assert!(matches!(with_budget.should_retry(AlwaysRetry), ControlFlow::Continue(_)));
    assert!(matches!(with_budget.should_retry(NeverRetry), ControlFlow::Break(NeverRetry)));

    let mut exhausted = RetryPolicies::new(LimitedBackoff { max_retries: 0, execute_after: 0 });
    assert!(matches!(exhausted.should_retry(AlwaysRetry), ControlFlow::Break(AlwaysRetry)));

    let mut exhausted_too = RetryPolicies::new(LimitedBackoff { max_retries: 0, execute_after: 0 });
    assert!(matches!(exhausted_too.should_retry(NeverRetry), ControlFlow::Break(NeverRetry)));
}

#[test]
fn break_carries_the_result() {
    let mut policy = RetryPolicies::new(LimitedBackoff { max_retries: 5, execute_after: 0 });
    match policy.should_retry(RetryUntil(1)) {
        ControlFlow::Break(r) => assert_eq!(r, RetryUntil(1)),
        ControlFlow::Continue(_) => panic!("attempt 1 of RetryUntil(1) must stop"),
    }
}

#[test]
fn counter_strictly_increases() {
    let mut policy = RetryPolicies::new(LimitedBackoff { max_retries: 10, execute_after: 0 });
    assert_eq!(policy.amount, 0);
    for expected in 1..=5u32 {
        policy.should_retry(AlwaysRetry);
        assert_eq!(policy.amount, expected);
    }
}

#[test]
fn counter_keeps_accumulating_across_runs() {
    // Reusing one adapter after the loop returned resets nothing.
    let mut policy = RetryPolicies::new(LimitedBackoff { max_retries: 3, execute_after: 0 });
    retry(&mut policy, sleep, || AlwaysRetry);
    assert_eq!(policy.amount, 4);
    retry(&mut policy, sleep, || AlwaysRetry);
    assert_eq!(policy.amount, 5); // budget already exhausted: one more attempt
}

#[test]
fn option_classifier() {
    // Absent is retryable, present is not, whatever the attempt count.
    assert!(None::<u64>.should_retry(1));
    assert!(None::<u64>.should_retry(1000));
    assert!(!Some(17u64).should_retry(1));
    assert!(!Some(17u64).should_retry(1000));
}

#[test]
fn result_classifier() {
    // Success is never retried; a failure classifies as the error does.
    assert!(!Ok::<u8, AlwaysRetry>(3).should_retry(1));
    assert!(Err::<u8, AlwaysRetry>(AlwaysRetry).should_retry(1));
    assert!(!Err::<u8, NeverRetry>(NeverRetry).should_retry(1));
    assert!(Err::<u8, RetryUntil>(RetryUntil(3)).should_retry(2));
    assert!(!Err::<u8, RetryUntil>(RetryUntil(3)).should_retry(3));
}

#[test]
fn retry_until_classifier() {
    assert!(RetryUntil(3).should_retry(1));
    assert!(RetryUntil(3).should_retry(2));
    assert!(!RetryUntil(3).should_retry(3));
    assert!(!RetryUntil(0).should_retry(1));
}

#[test]
fn wait_is_clamped_to_zero() {
    // execute_after at or before now gives exactly zero, never an error.
    assert_eq!(wait_millis(5, 10), 0);
    assert_eq!(wait_millis(10, 10), 0);
    assert_eq!(wait_millis(-50, 0), 0);
    assert_eq!(wait_millis(i64::MIN, i64::MAX), 0);
}

#[test]
fn wait_is_the_exact_distance() {
    assert_eq!(wait_millis(10, 5), 5);
    assert_eq!(wait_millis(1_700_000_060_000, 1_700_000_000_000), 60_000);
    assert_eq!(wait_millis(i64::MAX, i64::MIN), u64::MAX);
}

#[test]
fn continue_carries_a_clock_based_wait() {
    // A schedule pointing a minute into the future yields a wait close to a
    // minute; one pointing into the past yields a zero wait.
    let future = chrono::Utc::now().timestamp_millis() + 60_000;
    let mut policy = RetryPolicies::new(LimitedBackoff { max_retries: 1, execute_after: future });
    match policy.should_retry(AlwaysRetry) {
        ControlFlow::Continue(wait) => assert!(wait > 30_000 && wait <= 60_000),
        ControlFlow::Break(_) => panic!("budget of 1 retry must permit attempt 1 to continue"),
    }

    let mut past = RetryPolicies::new(LimitedBackoff { max_retries: 1, execute_after: 0 });
    match past.should_retry(AlwaysRetry) {
        ControlFlow::Continue(wait) => assert_eq!(wait, 0),
        ControlFlow::Break(_) => panic!("budget of 1 retry must permit attempt 1 to continue"),
    }
}

#[test]
fn loop_sleeps_the_decided_waits() {
    // Each continue decision hands its wait to the sleep primitive once;
    // with a schedule in the past every wait is zero.
    let waits = std::cell::RefCell::new(Vec::new());
    let mut policy = RetryPolicies::new(LimitedBackoff { max_retries: 2, execute_after: 0 });
    retry(&mut policy, |w| waits.borrow_mut().push(w), || AlwaysRetry);
    assert_eq!(*waits.borrow(), vec![0, 0]);
}

#[test]
fn new_starts_at_zero() {
    let policy = RetryPolicies::new(LimitedBackoff { max_retries: 7, execute_after: 3 });
    assert_eq!(policy.amount, 0);
    assert_eq!(policy.policy, LimitedBackoff { max_retries: 7, execute_after: 3 });
}

#[test]
fn option_drives_the_loop() {
    // The built-in Option classifier retries until a value appears.
    let calls = std::cell::Cell::new(0u32);
    let mut policy = RetryPolicies::new(LimitedBackoff { max_retries: 9, execute_after: 0 });
    let got = retry(&mut policy, sleep, || {
        let n = calls.get() + 1;
        calls.set(n);
        if n >= 3 { Some(n) } else { None }
    });
    assert_eq!(got, Some(3));
    assert_eq!(policy.amount, 3);
    assert_eq!(calls.get(), 3);
}

#[test]
fn result_drives_the_loop() {
    // The built-in Result classifier stops on success or on an error that
    // declares itself terminal.
    let calls = std::cell::Cell::new(0u32);
    let mut policy = RetryPolicies::new(LimitedBackoff { max_retries: 9, execute_after: 0 });
    let got: Result<&str, RetryUntil> = retry(&mut policy, sleep, || {
        let n = calls.get() + 1;
        calls.set(n);
        if n >= 2 { Ok("done") } else { Err(RetryUntil(u32::MAX)) }
    });
    assert_eq!(got, Ok("done"));
    assert_eq!(policy.amount, 2);
}
