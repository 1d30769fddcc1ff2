//! A generic retry orchestration core.
//!
//! Given an operation that can be re-attempted, a backoff policy that decides
//! whether and when to retry, and a sleep primitive for waiting, this library
//! drives repeated attempts until the policy says stop and returns the final
//! outcome. The backoff algorithm itself, the sleep primitive and the
//! operation are external collaborators, consumed through capability
//! interfaces; this crate owns only the merging of their verdicts and the
//! attempt accounting.

pub mod adapter;
pub mod backoff;
pub mod classify;
pub mod orchestrate;

pub use adapter::RetryPolicies;
pub use adapter::wait_millis;
pub use backoff::BackoffPolicy;
pub use backoff::BackoffVerdict;
pub use backoff::LimitedBackoff;
pub use classify::AlwaysRetry;
pub use classify::NeverRetry;
pub use classify::RetryUntil;
pub use classify::ShouldRetry;
pub use orchestrate::retry;
