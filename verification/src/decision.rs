//! CAS decision values returned by user operations.
use std::sync::Arc;

use vstd::prelude::*;

verus! {

/// Decision returned by one CAS operation attempt.
///
/// A CAS operation reads a consistent snapshot of `T` and returns one of four
/// outcomes: install a new state by compare-and-swap, finish without
/// writing, report a retryable business failure, or abort the flow.
#[must_use]
#[derive(Debug, Clone, PartialEq, Eq)]
pub enum CasDecision<T, R, E> {
    /// Writes a new state and returns a business output.
    Update {
        /// Replacement state to install when compare-and-swap succeeds.
        next: Arc<T>,
        /// Business output returned to the caller on success.
        output: R,
    },
    /// Completes successfully without writing a new state.
    Finish {
        /// Business output returned to the caller.
        output: R,
    },
    /// Requests another CAS attempt.
    Retry(E),
    /// Aborts the CAS flow immediately.
    Abort(E),
}

impl<T, R, E> CasDecision<T, R, E> {
    /// Creates an update decision from an owned value.
    pub fn update(next: T, output: R) -> (r: Self)
        ensures
            r matches CasDecision::Update { next: n, output: o } && *n == next && o == output,
    {
        CasDecision::Update { next: Arc::new(next), output }
    }

    /// Creates an update decision from an `Arc<T>`.
    pub fn update_arc(next: Arc<T>, output: R) -> (r: Self)
        ensures
            r == (CasDecision::Update::<T, R, E> { next, output }),
    {
        CasDecision::Update { next, output }
    }

    /// Creates a finish decision.
    pub fn finish(output: R) -> (r: Self)
        ensures
            r == (CasDecision::Finish::<T, R, E> { output }),
    {
        CasDecision::Finish { output }
    }

    /// Creates a retry decision.
    pub fn retry(error: E) -> (r: Self)
        ensures
            r == CasDecision::<T, R, E>::Retry(error),
    {
        CasDecision::Retry(error)
    }

    /// Creates an abort decision.
    pub fn abort(error: E) -> (r: Self)
        ensures
            r == CasDecision::<T, R, E>::Abort(error),
    {
        CasDecision::Abort(error)
    }
}

} // verus!
