//! Structured retry-layer terminal failures, carrying `qubit_retry` values.
use qubit_retry::RetryCallbackFailure;
use qubit_retry::RetryCancellationPhase;
use qubit_retry::RetryInfrastructureFailure;
use qubit_retry::RetryLimitKind;
use qubit_retry::RetryTimeoutScope;
use vstd::prelude::*;
use vstd::string::to_string_from_display_ensures;


verus! {

#[verifier::external_type_specification]
#[verifier::external_body]
pub struct ExRetryLimitKind(RetryLimitKind);

#[verifier::external_type_specification]
#[verifier::external_body]
pub struct ExRetryTimeoutScope(RetryTimeoutScope);

#[verifier::external_type_specification]
#[verifier::external_body]
pub struct ExRetryCancellationPhase(RetryCancellationPhase);

#[verifier::external_type_specification]
#[verifier::external_body]
pub struct ExRetryCallbackFailure(RetryCallbackFailure);

#[verifier::external_type_specification]
#[verifier::external_body]
pub struct ExRetryInfrastructureFailure(RetryInfrastructureFailure);

/// `RetryLimitKind` derives `Clone` and `Copy`: a clone is the same value.
pub assume_specification[ <RetryLimitKind as Clone>::clone ](v: &RetryLimitKind) -> (r: RetryLimitKind)
    ensures
        r == *v,
;

/// `RetryTimeoutScope` derives `Clone` and `Copy`: a clone is the same value.
pub assume_specification[ <RetryTimeoutScope as Clone>::clone ](v: &RetryTimeoutScope) -> (r:
    RetryTimeoutScope)
    ensures
        r == *v,
;

/// `RetryCancellationPhase` derives `Clone` and `Copy`: a clone is the same
/// value.
pub assume_specification[ <RetryCancellationPhase as Clone>::clone ](v: &RetryCancellationPhase) -> (r:
    RetryCancellationPhase)
    ensures
        r == *v,
;

/// `RetryCallbackFailure` derives `Clone` over plain fields: a clone is an
/// equal value.
pub assume_specification[ <RetryCallbackFailure as Clone>::clone ](v: &RetryCallbackFailure) -> (r:
    RetryCallbackFailure)
    ensures
        r == *v,
;

/// `RetryInfrastructureFailure` derives `Clone` over plain fields: a clone is
/// an equal value.
pub assume_specification[ <RetryInfrastructureFailure as Clone>::clone ](
    v: &RetryInfrastructureFailure,
) -> (r: RetryInfrastructureFailure)
    ensures
        r == *v,
;

/// Structured retry-layer terminal classification.
#[must_use]
#[derive(Debug, Clone, PartialEq, Eq)]
#[non_exhaustive]
pub enum CasRetryFailure {
    /// A retry rule deliberately stopped the flow.
    Aborted,
    /// A continuation limit prevented another attempt.
    Exhausted {
        /// Exact limit that was exhausted.
        limit: RetryLimitKind,
    },
    /// A hard timeout stopped execution.
    TimedOut {
        /// Scope whose timeout expired.
        scope: RetryTimeoutScope,
    },
    /// External cancellation stopped execution.
    Cancelled {
        /// Retry phase in which cancellation was observed.
        phase: RetryCancellationPhase,
    },
    /// A retry rule or observer panicked.
    CallbackFailed {
        /// Exact callback kind, index, phase, and panic payload.
        callback: RetryCallbackFailure,
    },
    /// Retry infrastructure could not continue safely.
    Infrastructure {
        /// Exact clock, timer, worker-spawn, or worker-stop failure.
        failure: RetryInfrastructureFailure,
    },
    /// A terminal variant outside the known retry contract.
    Unknown,
}

/// Whether `text` is `prefix` followed by the displayed text of `value`.
pub open spec fn displays_after<V: std::fmt::Display>(prefix: Seq<char>, value: V, text: Seq<char>) -> bool {
    exists|shown: String| #[trigger] to_string_from_display_ensures::<V>(&value, shown) && text == prefix + shown@
}

/// Whether `text` describes `failure`.
pub open spec fn describes_retry_failure(failure: CasRetryFailure, text: Seq<char>) -> bool {
    match failure {
        CasRetryFailure::Aborted => text == "retry aborted"@,
        CasRetryFailure::Exhausted { limit } => displays_after("retry limit exhausted: "@, limit, text),
        CasRetryFailure::TimedOut { scope } => displays_after("retry timed out: "@, scope, text),
        CasRetryFailure::Cancelled { phase } => displays_after("retry cancelled: "@, phase, text),
        CasRetryFailure::CallbackFailed { callback } => displays_after(
            "retry callback failed: "@,
            callback,
            text,
        ),
        CasRetryFailure::Infrastructure { failure } => displays_after(
            "retry infrastructure failed: "@,
            failure,
            text,
        ),
        CasRetryFailure::Unknown => text == "unknown retry terminal failure"@,
    }
}

fn prefixed<V: std::fmt::Display>(prefix: &str, value: &V) -> (r: String)
    ensures
        displays_after(prefix@, *value, r@),
{
    let shown = value.to_string();
    let mut text = String::new();
    text.append(prefix);
    text.append(shown.as_str());
    assert(text@ =~= prefix@ + shown@);
    assert(to_string_from_display_ensures::<V>(&*value, shown));
    text
}

impl CasRetryFailure {
    /// Returns the exhausted continuation limit, when applicable.
    pub fn limit(&self) -> (r: Option<RetryLimitKind>)
        ensures
            match *self {
                CasRetryFailure::Exhausted { limit } => r == Some(limit),
                _ => r is None,
            },
    {
        match self {
            CasRetryFailure::Exhausted { limit } => Some(*limit),
            _ => None,
        }
    }

    /// Returns the hard-timeout scope, when applicable.
    pub fn timeout_scope(&self) -> (r: Option<RetryTimeoutScope>)
        ensures
            match *self {
                CasRetryFailure::TimedOut { scope } => r == Some(scope),
                _ => r is None,
            },
    {
        match self {
            CasRetryFailure::TimedOut { scope } => Some(*scope),
            _ => None,
        }
    }

    /// Returns the cancellation phase, when applicable.
    pub fn cancellation_phase(&self) -> (r: Option<RetryCancellationPhase>)
        ensures
            match *self {
                CasRetryFailure::Cancelled { phase } => r == Some(phase),
                _ => r is None,
            },
    {
        match self {
            CasRetryFailure::Cancelled { phase } => Some(*phase),
            _ => None,
        }
    }

    /// Returns the callback failure attribution, when applicable.
    pub fn callback_failure(&self) -> (r: Option<&RetryCallbackFailure>)
        ensures
            match *self {
                CasRetryFailure::CallbackFailed { callback } => r matches Some(c) && *c == callback,
                _ => r is None,
            },
    {
        match self {
            CasRetryFailure::CallbackFailed { callback } => Some(callback),
            _ => None,
        }
    }

    /// Returns the infrastructure failure, when applicable.
    pub fn infrastructure_failure(&self) -> (r: Option<&RetryInfrastructureFailure>)
        ensures
            match *self {
                CasRetryFailure::Infrastructure { failure } => r matches Some(f) && *f == failure,
                _ => r is None,
            },
    {
        match self {
            CasRetryFailure::Infrastructure { failure } => Some(failure),
            _ => None,
        }
    }

    /// Describes the structured terminal classification.
    #[allow(clippy::inherent_to_string)]
    pub fn to_string(&self) -> (r: String)
        ensures
            describes_retry_failure(*self, r@),
    {
        match self {
            CasRetryFailure::Aborted => {
                let mut text = String::new();
                text.append("retry aborted");
                assert(text@ =~= "retry aborted"@);
                text
            },
            CasRetryFailure::Exhausted { limit } => prefixed("retry limit exhausted: ", limit),
            CasRetryFailure::TimedOut { scope } => prefixed("retry timed out: ", scope),
            CasRetryFailure::Cancelled { phase } => prefixed("retry cancelled: ", phase),
            CasRetryFailure::CallbackFailed { callback } => prefixed("retry callback failed: ", callback),
            CasRetryFailure::Infrastructure { failure } => prefixed("retry infrastructure failed: ", failure),
            CasRetryFailure::Unknown => {
                let mut text = String::new();
                text.append("unknown retry terminal failure");
                assert(text@ =~= "unknown retry terminal failure"@);
                text
            },
        }
    }
}

} // verus!
