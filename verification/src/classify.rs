//! Outcome classification: whether a specific attempt result is worth
//! retrying, independent of any backoff schedule.

use vstd::prelude::*;

verus! {

/// A simpler form of retry policy that returns whether the value can be
/// retried.
///
/// `retryable` names the verdict in contracts; `should_retry` must return
/// exactly it. Classification is total: it is a pure function of the value
/// and the attempt count, and it never fails.
pub trait ShouldRetry: Sized {
    /// Whether the value is worth re-attempting after `attempts` attempts.
    spec fn retryable(&self, attempts: u32) -> bool;

    /// Whether the value should be re-attempted.
    /// Return true if a retry is permitted, return false if a retry is
    /// forbidden. `attempts` denotes how many attempts have been made so far
    /// (starts at 1).
    fn should_retry(&self, attempts: u32) -> (r: bool)
        ensures
            r == self.retryable(attempts),
    ;
}

impl<T> ShouldRetry for Option<T> {
    /// Absence is the retryable case; presence is terminal success.
    open spec fn retryable(&self, attempts: u32) -> bool {
        self is None
    }

    /// Should retry if None.
    fn should_retry(&self, attempts: u32) -> (r: bool) {
        self.is_none()
    }
}

impl<T, E: ShouldRetry> ShouldRetry for Result<T, E> {
    /// Success is never retried; a failure delegates to its own classifier.
    open spec fn retryable(&self, attempts: u32) -> bool {
        match self {
            Ok(_) => false,
            Err(e) => e.retryable(attempts),
        }
    }

    /// Result should retry if the error should retry.
    /// Should not retry if ok.
    fn should_retry(&self, attempts: u32) -> (r: bool) {
        match self {
            Ok(_) => false,
            Err(e) => e.should_retry(attempts),
        }
    }
}

/// A [`ShouldRetry`] value that is always worth retrying.
#[derive(Clone, Copy, Debug, PartialEq, Eq, Structural)]
pub struct AlwaysRetry;

impl ShouldRetry for AlwaysRetry {
    open spec fn retryable(&self, attempts: u32) -> bool {
        true
    }

    fn should_retry(&self, attempts: u32) -> (r: bool) {
        true
    }
}

/// A [`ShouldRetry`] value that is never worth retrying.
#[derive(Clone, Copy, Debug, PartialEq, Eq, Structural)]
pub struct NeverRetry;

impl ShouldRetry for NeverRetry {
    open spec fn retryable(&self, attempts: u32) -> bool {
        false
    }

    fn should_retry(&self, attempts: u32) -> (r: bool) {
        false
    }
}

/// A [`ShouldRetry`] value that is worth retrying only while fewer attempts
/// than its threshold have been made.
#[derive(Clone, Copy, Debug, PartialEq, Eq, Structural)]
pub struct RetryUntil(pub u32);

impl ShouldRetry for RetryUntil {
    open spec fn retryable(&self, attempts: u32) -> bool {
        attempts < self.0
    }

    fn should_retry(&self, attempts: u32) -> (r: bool) {
        attempts < self.0
    }
}

/// Law: an absent value always classifies as retryable; a present value
/// always classifies as not-retryable, independent of the attempt count.
pub proof fn lemma_option_classifier<T>(v: Option<T>, attempts: u32)
    ensures
        v.retryable(attempts) <==> v is None,
{
}

/// Law: a success value always classifies as not-retryable; a failure
/// value's classification equals the failure's own retryable-ness at the
/// same attempt count.
pub proof fn lemma_result_classifier<T, E: ShouldRetry>(v: Result<T, E>, attempts: u32)
    ensures
        v is Ok ==> !v.retryable(attempts),
        v matches Err(e) ==> v.retryable(attempts) == e.retryable(attempts),
{
}

} // verus!
