//! Retry context captured for CAS lifecycle events and terminal results.
use std::time::Duration;

use vstd::prelude::*;

verus! {

/// Plain snapshot of the values a [`CasContext`] carries.
pub struct CasContextView {
    /// Number of operations that actually started.
    pub attempts: u32,
    /// One-based ordinal of the attempt associated with the current event.
    pub current_attempt: Option<u32>,
    /// Configured maximum attempts.
    pub max_attempts: u32,
    /// Configured maximum cumulative user operation time.
    pub max_operation_elapsed: Option<Duration>,
    /// Configured maximum total retry-flow elapsed time.
    pub max_total_elapsed: Option<Duration>,
    /// Elapsed time since the CAS flow started.
    pub total_elapsed: Duration,
    /// Time spent in the latest completed attempt.
    pub last_attempt_elapsed: Duration,
    /// Effective timeout selected for the current async attempt.
    pub current_attempt_timeout: Option<Duration>,
    /// Delay selected before the next retry, when known.
    pub next_delay: Option<Duration>,
}

/// Context captured for CAS lifecycle events.
#[derive(Debug, Clone, Copy, PartialEq, Eq)]
pub struct CasContext {
    attempts: u32,
    current_attempt: Option<u32>,
    max_attempts: u32,
    max_operation_elapsed: Option<Duration>,
    max_total_elapsed: Option<Duration>,
    total_elapsed: Duration,
    last_attempt_elapsed: Duration,
    current_attempt_timeout: Option<Duration>,
    next_delay: Option<Duration>,
}

impl View for CasContext {
    type V = CasContextView;

    closed spec fn view(&self) -> CasContextView {
        CasContextView {
            attempts: self.attempts,
            current_attempt: self.current_attempt,
            max_attempts: self.max_attempts,
            max_operation_elapsed: self.max_operation_elapsed,
            max_total_elapsed: self.max_total_elapsed,
            total_elapsed: self.total_elapsed,
            last_attempt_elapsed: self.last_attempt_elapsed,
            current_attempt_timeout: self.current_attempt_timeout,
            next_delay: self.next_delay,
        }
    }
}

impl CasContext {
    #[verifier::type_invariant]
    spec fn attempt_ordinal_is_one_based(&self) -> bool {
        self.current_attempt matches Some(n) ==> n >= 1
    }

    /// Creates a context from the counters and limits of one retry flow.
    ///
    /// `current_attempt`, when present, is the one-based ordinal of the
    /// attempt the context describes.
    #[allow(clippy::too_many_arguments)]
    pub fn new(
        attempts: u32,
        current_attempt: Option<u32>,
        max_attempts: u32,
        max_operation_elapsed: Option<Duration>,
        max_total_elapsed: Option<Duration>,
        total_elapsed: Duration,
        last_attempt_elapsed: Duration,
        current_attempt_timeout: Option<Duration>,
        next_delay: Option<Duration>,
    ) -> (r: Self)
        requires
            current_attempt matches Some(n) ==> n >= 1,
        ensures
            r@ == (CasContextView {
                attempts,
                current_attempt,
                max_attempts,
                max_operation_elapsed,
                max_total_elapsed,
                total_elapsed,
                last_attempt_elapsed,
                current_attempt_timeout,
                next_delay,
            }),
    {
        CasContext {
            attempts,
            current_attempt,
            max_attempts,
            max_operation_elapsed,
            max_total_elapsed,
            total_elapsed,
            last_attempt_elapsed,
            current_attempt_timeout,
            next_delay,
        }
    }

    /// Returns the number of operations that actually started.
    pub fn attempts(&self) -> (r: u32)
        ensures
            r == self@.attempts,
    {
        self.attempts
    }

    /// Returns the one-based ordinal of the attempt associated with the
    /// current retry event, or `None` for terminal contexts without one.
    pub fn current_attempt(&self) -> (r: Option<u32>)
        ensures
            r == self@.current_attempt,
            r matches Some(n) ==> n >= 1,
    {
        proof {
            use_type_invariant(self);
        }
        self.current_attempt
    }

    /// Returns the configured maximum attempts, including the initial attempt.
    pub fn max_attempts(&self) -> (r: u32)
        ensures
            r == self@.max_attempts,
    {
        self.max_attempts
    }

    /// Returns the configured maximum retries after the initial attempt.
    pub fn max_retries(&self) -> (r: u32)
        ensures
            r == (if self@.max_attempts == 0 { 0 } else { self@.max_attempts - 1 }),
    {
        self.max_attempts.saturating_sub(1)
    }

    /// Returns the configured maximum cumulative user operation time budget.
    pub fn max_operation_elapsed(&self) -> (r: Option<Duration>)
        ensures
            r == self@.max_operation_elapsed,
    {
        self.max_operation_elapsed
    }

    /// Returns the configured maximum total retry-flow elapsed-time budget.
    pub fn max_total_elapsed(&self) -> (r: Option<Duration>)
        ensures
            r == self@.max_total_elapsed,
    {
        self.max_total_elapsed
    }

    /// Returns elapsed time since the CAS flow started.
    pub fn total_elapsed(&self) -> (r: Duration)
        ensures
            r == self@.total_elapsed,
    {
        self.total_elapsed
    }

    /// Returns elapsed time spent in the latest completed attempt.
    pub fn last_attempt_elapsed(&self) -> (r: Duration)
        ensures
            r == self@.last_attempt_elapsed,
    {
        self.last_attempt_elapsed
    }

    /// Returns the effective timeout for the current async attempt.
    pub fn current_attempt_timeout(&self) -> (r: Option<Duration>)
        ensures
            r == self@.current_attempt_timeout,
    {
        self.current_attempt_timeout
    }

    /// Returns the selected delay before the next retry.
    pub fn next_delay(&self) -> (r: Option<Duration>)
        ensures
            r == self@.next_delay,
    {
        self.next_delay
    }
}

} // verus!
