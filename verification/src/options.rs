//! Timeout handling policies for async CAS operations.
use vstd::prelude::*;

verus! {

/// Policy used when one async CAS attempt exceeds the configured timeout.
#[derive(Debug, Clone, Copy, PartialEq, Eq, Structural)]
pub enum CasTimeoutPolicy {
    /// Retry the timed-out attempt while retry limits still allow it.
    Retry,
    /// Abort the CAS flow immediately when a timeout occurs.
    Abort,
}

impl Default for CasTimeoutPolicy {
    /// Returns [`CasTimeoutPolicy::Retry`].
    fn default() -> (r: Self)
        ensures
            r == CasTimeoutPolicy::Retry,
    {
        CasTimeoutPolicy::Retry
    }
}

/// Action an executor takes after one configured attempt timeout.
#[derive(Debug, Clone, Copy, PartialEq, Eq, Structural)]
pub enum AttemptTimeoutAction {
    /// Schedule another attempt when continuation budgets allow it.
    Retry,
    /// Terminate the CAS flow immediately.
    Abort,
}

} // verus!
