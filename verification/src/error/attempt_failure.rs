//! Attempt-level CAS failures.
use std::sync::Arc;

use vstd::prelude::*;

use super::kinds::CasAttemptFailureKind;
use vstd::string::to_string_from_display_ensures;

verus! {

/// Failure produced by one CAS attempt.
#[derive(Debug, PartialEq, Eq)]
pub enum CasAttemptFailure<T, E> {
    /// Compare-and-swap failed because another writer changed the state first.
    Conflict {
        /// State observed after the conflict.
        current: Arc<T>,
    },
    /// Business logic requested another attempt.
    Retry {
        /// Current state for the failed attempt.
        current: Arc<T>,
        /// Retryable business error.
        error: E,
    },
    /// Business logic aborted the CAS flow.
    Abort {
        /// Current state for the failed attempt.
        current: Arc<T>,
        /// Terminal business error.
        error: E,
    },
    /// One async attempt exceeded the configured timeout.
    Timeout {
        /// State snapshot used by the timed-out attempt.
        current: Arc<T>,
    },
}

/// Whether `b` is a clone of `a`: the same variant and snapshot, with the
/// business error, where there is one, cloned.
pub open spec fn failure_cloned<T, E: Clone>(a: CasAttemptFailure<T, E>, b: CasAttemptFailure<T, E>) -> bool {
    match (a, b) {
        (CasAttemptFailure::Conflict { current: c1 }, CasAttemptFailure::Conflict { current: c2 }) => c1 == c2,
        (
            CasAttemptFailure::Retry { current: c1, error: e1 },
            CasAttemptFailure::Retry { current: c2, error: e2 },
        ) => c1 == c2 && cloned::<E>(e1, e2),
        (
            CasAttemptFailure::Abort { current: c1, error: e1 },
            CasAttemptFailure::Abort { current: c2, error: e2 },
        ) => c1 == c2 && cloned::<E>(e1, e2),
        (CasAttemptFailure::Timeout { current: c1 }, CasAttemptFailure::Timeout { current: c2 }) => c1 == c2,
        _ => false,
    }
}

impl<T, E: Clone> Clone for CasAttemptFailure<T, E> {
    /// Shares the snapshot and clones the business error.
    fn clone(&self) -> (r: Self)
        ensures
            failure_cloned(*self, r),
    {
        match self {
            CasAttemptFailure::Conflict { current } => CasAttemptFailure::Conflict { current: current.clone() },
            CasAttemptFailure::Retry { current, error } => CasAttemptFailure::Retry {
                current: current.clone(),
                error: error.clone(),
            },
            CasAttemptFailure::Abort { current, error } => CasAttemptFailure::Abort {
                current: current.clone(),
                error: error.clone(),
            },
            CasAttemptFailure::Timeout { current } => CasAttemptFailure::Timeout { current: current.clone() },
        }
    }
}

/// Message of an attempt failure, given the text of its business error
/// (ignored for failures that carry none).
pub open spec fn attempt_failure_message<T, E>(failure: CasAttemptFailure<T, E>, error_text: Seq<char>) -> Seq<char> {
    match failure {
        CasAttemptFailure::Conflict { .. } => "compare-and-swap conflict"@,
        CasAttemptFailure::Retry { .. } => "retryable CAS failure: "@ + error_text,
        CasAttemptFailure::Abort { .. } => "aborted CAS failure: "@ + error_text,
        CasAttemptFailure::Timeout { .. } => "CAS attempt timed out"@,
    }
}

/// Whether `text` describes `failure`: its message built from the displayed
/// text of its business error, when it carries one.
pub open spec fn describes_attempt_failure<T, E: std::fmt::Display>(
    failure: CasAttemptFailure<T, E>,
    text: Seq<char>,
) -> bool {
    match failure.spec_error() {
        None => text == attempt_failure_message(failure, Seq::empty()),
        Some(error) => exists|shown: String|
            #[trigger] to_string_from_display_ensures::<E>(&error, shown) && text
                == attempt_failure_message(failure, shown@),
    }
}

impl<T, E> CasAttemptFailure<T, E> {
    /// The state snapshot carried by every failure variant.
    pub open spec fn spec_current(self) -> Arc<T> {
        match self {
            CasAttemptFailure::Conflict { current } => current,
            CasAttemptFailure::Retry { current, .. } => current,
            CasAttemptFailure::Abort { current, .. } => current,
            CasAttemptFailure::Timeout { current } => current,
        }
    }

    /// The lightweight kind that names this failure variant.
    pub open spec fn spec_kind(self) -> CasAttemptFailureKind {
        match self {
            CasAttemptFailure::Conflict { .. } => CasAttemptFailureKind::Conflict,
            CasAttemptFailure::Retry { .. } => CasAttemptFailureKind::Retry,
            CasAttemptFailure::Abort { .. } => CasAttemptFailureKind::Abort,
            CasAttemptFailure::Timeout { .. } => CasAttemptFailureKind::Timeout,
        }
    }

    /// The business error carried by Retry and Abort failures.
    pub open spec fn spec_error(self) -> Option<E> {
        match self {
            CasAttemptFailure::Retry { error, .. } => Some(error),
            CasAttemptFailure::Abort { error, .. } => Some(error),
            _ => None,
        }
    }

    /// Creates a conflict failure.
    pub(crate) fn conflict(current: Arc<T>) -> (r: Self)
        ensures
            r == (CasAttemptFailure::Conflict::<T, E> { current }),
    {
        CasAttemptFailure::Conflict { current }
    }

    /// Creates a retryable business failure.
    pub(crate) fn retry(current: Arc<T>, error: E) -> (r: Self)
        ensures
            r == (CasAttemptFailure::Retry { current, error }),
    {
        CasAttemptFailure::Retry { current, error }
    }

    /// Creates an abort failure.
    pub(crate) fn abort(current: Arc<T>, error: E) -> (r: Self)
        ensures
            r == (CasAttemptFailure::Abort { current, error }),
    {
        CasAttemptFailure::Abort { current, error }
    }

    /// Creates a timeout failure.
    pub(crate) fn timeout(current: Arc<T>) -> (r: Self)
        ensures
            r == (CasAttemptFailure::Timeout::<T, E> { current }),
    {
        CasAttemptFailure::Timeout { current }
    }

    /// Returns the state snapshot associated with this failure.
    pub fn current(&self) -> (r: &Arc<T>)
        ensures
            *r == self.spec_current(),
    {
        match self {
            CasAttemptFailure::Conflict { current } => current,
            CasAttemptFailure::Retry { current, .. } => current,
            CasAttemptFailure::Abort { current, .. } => current,
            CasAttemptFailure::Timeout { current } => current,
        }
    }

    /// Returns the lightweight kind of this attempt failure.
    pub fn kind(&self) -> (r: CasAttemptFailureKind)
        ensures
            r == self.spec_kind(),
    {
        match self {
            CasAttemptFailure::Conflict { .. } => CasAttemptFailureKind::Conflict,
            CasAttemptFailure::Retry { .. } => CasAttemptFailureKind::Retry,
            CasAttemptFailure::Abort { .. } => CasAttemptFailureKind::Abort,
            CasAttemptFailure::Timeout { .. } => CasAttemptFailureKind::Timeout,
        }
    }

    /// Returns the business error when this failure carries one.
    pub fn error(&self) -> (r: Option<&E>)
        ensures
            r matches Some(e) ==> self.spec_error() == Some(*e),
            r is None <==> self.spec_error() is None,
    {
        match self {
            CasAttemptFailure::Retry { error, .. } => Some(error),
            CasAttemptFailure::Abort { error, .. } => Some(error),
            CasAttemptFailure::Conflict { .. } => None,
            CasAttemptFailure::Timeout { .. } => None,
        }
    }

    /// Describes the failure for diagnostics.
    #[allow(clippy::inherent_to_string)]
    pub fn to_string(&self) -> (r: String)
        where
            E: std::fmt::Display,
        ensures
            describes_attempt_failure(*self, r@),
    {
        let mut text = String::new();
        match self {
            CasAttemptFailure::Conflict { .. } => {
                text.append("compare-and-swap conflict");
                assert(text@ =~= attempt_failure_message(*self, Seq::empty()));
            },
            CasAttemptFailure::Retry { error, .. } => {
                let shown = error.to_string();
                text.append("retryable CAS failure: ");
                text.append(shown.as_str());
                assert(text@ =~= attempt_failure_message(*self, shown@));
                assert(to_string_from_display_ensures::<E>(error, shown));
                assert(self.spec_error() == Some(*error));
                assert(to_string_from_display_ensures::<E>(&self.spec_error().unwrap(), shown));
                assert(describes_attempt_failure(*self, text@));
            },
            CasAttemptFailure::Abort { error, .. } => {
                let shown = error.to_string();
                text.append("aborted CAS failure: ");
                text.append(shown.as_str());
                assert(text@ =~= attempt_failure_message(*self, shown@));
                assert(to_string_from_display_ensures::<E>(error, shown));
                assert(self.spec_error() == Some(*error));
                assert(to_string_from_display_ensures::<E>(&self.spec_error().unwrap(), shown));
                assert(describes_attempt_failure(*self, text@));
            },
            CasAttemptFailure::Timeout { .. } => {
                text.append("CAS attempt timed out");
                assert(text@ =~= attempt_failure_message(*self, Seq::empty()));
            },
        }
        text
    }

    /// Returns whether this failure is a compare-and-swap conflict.
    pub fn is_conflict(&self) -> (r: bool)
        ensures
            r == (*self is Conflict),
    {
        matches!(self, CasAttemptFailure::Conflict { .. })
    }

    /// Returns whether this failure is a retryable business error.
    pub fn is_retry(&self) -> (r: bool)
        ensures
            r == (*self is Retry),
    {
        matches!(self, CasAttemptFailure::Retry { .. })
    }

    /// Returns whether this failure aborts the CAS flow.
    pub fn is_abort(&self) -> (r: bool)
        ensures
            r == (*self is Abort),
    {
        matches!(self, CasAttemptFailure::Abort { .. })
    }

    /// Returns whether this failure came from an async timeout.
    pub fn is_timeout(&self) -> (r: bool)
        ensures
            r == (*self is Timeout),
    {
        matches!(self, CasAttemptFailure::Timeout { .. })
    }
}

} // verus!
