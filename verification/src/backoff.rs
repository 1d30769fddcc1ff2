//! The backoff side of a retry decision: a schedule verdict and the
//! capability interface that produces one.

use vstd::prelude::*;

verus! {

/// The verdict of a backoff policy for one prospective retry: either wait
/// until a point in time and try again, or stop retrying.
///
/// Points in time are carried as milliseconds since the Unix epoch.
#[derive(Clone, Copy, Debug, PartialEq, Eq, Structural)]
pub enum BackoffVerdict {
    /// Retry, but not before the given timestamp (milliseconds since epoch).
    Retry { execute_after: i64 },
    /// The backoff budget is exhausted; do not retry.
    Stop,
}

/// A backoff decision provider: given how many retries already happened,
/// answers whether the schedule permits one more, and when.
///
/// The concrete backoff arithmetic (exponential growth, jitter, ...) is out
/// of scope for this crate; it hides behind this interface. `spec_decide`
/// names the verdict in contracts, and `decide` must return exactly it: a
/// provider is stateless with respect to the retry core, so the verdict is a
/// pure function of the provider's configuration and the retry count.
pub trait BackoffPolicy: Sized {
    /// The verdict this provider gives after `past_retries` retries.
    spec fn spec_decide(&self, past_retries: u32) -> BackoffVerdict;

    /// Ask the provider whether a retry number `past_retries + 1` may happen.
    fn decide(&self, past_retries: u32) -> (v: BackoffVerdict)
        ensures
            v == self.spec_decide(past_retries),
    ;
}

/// A backoff policy that permits exactly `max_retries` retries, each
/// scheduled at the same fixed timestamp.
///
/// This is the simplest provider that exercises both verdicts: it answers
/// `Retry` while fewer than `max_retries` retries have happened, `Stop`
/// afterwards.
#[derive(Clone, Copy, Debug, PartialEq, Eq, Structural)]
pub struct LimitedBackoff {
    /// How many retries the schedule permits in total.
    pub max_retries: u32,
    /// The timestamp (milliseconds since epoch) each retry is scheduled at.
    pub execute_after: i64,
}

impl BackoffPolicy for LimitedBackoff {
    open spec fn spec_decide(&self, past_retries: u32) -> BackoffVerdict {
        if past_retries < self.max_retries {
            BackoffVerdict::Retry { execute_after: self.execute_after }
        } else {
            BackoffVerdict::Stop
        }
    }

    fn decide(&self, past_retries: u32) -> (v: BackoffVerdict) {
        if past_retries < self.max_retries {
            BackoffVerdict::Retry { execute_after: self.execute_after }
        } else {
            BackoffVerdict::Stop
        }
    }
}

} // verus!
