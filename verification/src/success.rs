//! Successful CAS execution results.
use std::sync::Arc;

use vstd::prelude::*;

use crate::event::CasContext;

verus! {

/// Successful result returned by a CAS execution.
#[derive(Debug, PartialEq, Eq)]
pub enum CasSuccess<T, R> {
    /// The executor installed a new state by compare-and-swap.
    Updated {
        /// Previous state observed by the successful attempt.
        previous: Arc<T>,
        /// Current state after the successful update.
        current: Arc<T>,
        /// Business output returned by the operation.
        output: R,
        /// Retry context captured when the flow completed.
        context: CasContext,
    },
    /// The executor finished successfully without writing a new state.
    Finished {
        /// Current state that remained installed.
        current: Arc<T>,
        /// Business output returned by the operation.
        output: R,
        /// Retry context captured when the flow completed.
        context: CasContext,
    },
}

impl<T, R> CasSuccess<T, R> {
    /// The state installed or kept by the successful attempt.
    pub open spec fn spec_current(self) -> Arc<T> {
        match self {
            CasSuccess::Updated { current, .. } => current,
            CasSuccess::Finished { current, .. } => current,
        }
    }

    /// The business output of the successful attempt.
    pub open spec fn spec_output(self) -> R {
        match self {
            CasSuccess::Updated { output, .. } => output,
            CasSuccess::Finished { output, .. } => output,
        }
    }

    /// The retry context captured when the flow completed.
    pub open spec fn spec_context(self) -> CasContext {
        match self {
            CasSuccess::Updated { context, .. } => context,
            CasSuccess::Finished { context, .. } => context,
        }
    }

    /// Creates an updated success result.
    pub fn updated(previous: Arc<T>, current: Arc<T>, output: R, context: CasContext) -> (r: Self)
        ensures
            r == (CasSuccess::Updated { previous, current, output, context }),
    {
        CasSuccess::Updated { previous, current, output, context }
    }

    /// Creates a finished success result.
    pub fn finished(current: Arc<T>, output: R, context: CasContext) -> (r: Self)
        ensures
            r == (CasSuccess::Finished::<T, R> { current, output, context }),
    {
        CasSuccess::Finished { current, output, context }
    }

    /// Returns whether this success performed a write.
    pub fn is_updated(&self) -> (r: bool)
        ensures
            r == (*self is Updated),
    {
        matches!(self, CasSuccess::Updated { .. })
    }

    /// Returns the previous state when a write occurred.
    pub fn previous(&self) -> (r: Option<&Arc<T>>)
        ensures
            match *self {
                CasSuccess::Updated { previous, .. } => r matches Some(p) && *p == previous,
                CasSuccess::Finished { .. } => r is None,
            },
    {
        match self {
            CasSuccess::Updated { previous, .. } => Some(previous),
            CasSuccess::Finished { .. } => None,
        }
    }

    /// Returns the current state after success.
    pub fn current(&self) -> (r: &Arc<T>)
        ensures
            *r == self.spec_current(),
    {
        match self {
            CasSuccess::Updated { current, .. } => current,
            CasSuccess::Finished { current, .. } => current,
        }
    }

    /// Returns the business output.
    pub fn output(&self) -> (r: &R)
        ensures
            *r == self.spec_output(),
    {
        match self {
            CasSuccess::Updated { output, .. } => output,
            CasSuccess::Finished { output, .. } => output,
        }
    }

    /// Consumes the success result and returns the business output.
    pub fn into_output(self) -> (r: R)
        ensures
            r == self.spec_output(),
    {
        match self {
            CasSuccess::Updated { output, .. } => output,
            CasSuccess::Finished { output, .. } => output,
        }
    }

    /// Returns the retry context captured at success.
    pub fn context(&self) -> (r: CasContext)
        ensures
            r == self.spec_context(),
    {
        match self {
            CasSuccess::Updated { context, .. } => *context,
            CasSuccess::Finished { context, .. } => *context,
        }
    }

    /// Returns the number of attempts that were executed.
    pub fn attempts(&self) -> (r: u32)
        ensures
            r == self.spec_context()@.attempts,
    {
        self.context().attempts()
    }
}

/// Whether `b` is a clone of the success `a`: the same variant, snapshots
/// and context, with the business output cloned.
pub open spec fn success_cloned<T, R: Clone>(a: CasSuccess<T, R>, b: CasSuccess<T, R>) -> bool {
    match (a, b) {
        (
            CasSuccess::Updated { previous: p1, current: c1, output: o1, context: x1 },
            CasSuccess::Updated { previous: p2, current: c2, output: o2, context: x2 },
        ) => p1 == p2 && c1 == c2 && x1 == x2 && cloned::<R>(o1, o2),
        (
            CasSuccess::Finished { current: c1, output: o1, context: x1 },
            CasSuccess::Finished { current: c2, output: o2, context: x2 },
        ) => c1 == c2 && x1 == x2 && cloned::<R>(o1, o2),
        _ => false,
    }
}

impl<T, R: Clone> Clone for CasSuccess<T, R> {
    /// Shares the snapshots, copies the context and clones the output.
    fn clone(&self) -> (r: Self)
        ensures
            success_cloned(*self, r),
    {
        match self {
            CasSuccess::Updated { previous, current, output, context } => CasSuccess::Updated {
                previous: previous.clone(),
                current: current.clone(),
                output: output.clone(),
                context: *context,
            },
            CasSuccess::Finished { current, output, context } => CasSuccess::Finished {
                current: current.clone(),
                output: output.clone(),
                context: *context,
            },
        }
    }
}

} // verus!
