//! Lightweight classifications shared by CAS errors, reports and events.
use vstd::prelude::*;

verus! {

/// Lightweight kind of attempt-level CAS failure.
#[derive(Debug, Clone, Copy, PartialEq, Eq, Structural)]
pub enum CasAttemptFailureKind {
    /// Compare-and-swap failed because another writer changed the state first.
    Conflict,
    /// Business logic requested another attempt.
    Retry,
    /// Business logic aborted the flow.
    Abort,
    /// An async attempt exceeded its timeout.
    Timeout,
}

/// Classified reason for a terminal CAS error.
#[derive(Debug, Clone, Copy, PartialEq, Eq, Structural)]
pub enum CasErrorKind {
    /// The operation explicitly aborted.
    Abort,
    /// Retry limits were exhausted by compare-and-swap conflicts.
    ConflictExhausted,
    /// Retry limits were exhausted by retryable business failures.
    RetryExhausted,
    /// A single attempt timed out.
    AttemptTimeout,
    /// The hard whole-flow timeout fired.
    FlowTimeout,
    /// The retry layer failed while scheduling or stopping retry work.
    RetryInfrastructure,
    /// The cumulative attempt elapsed-time budget expired.
    OperationBudgetExceeded,
    /// The monotonic total retry-flow elapsed-time budget expired.
    TotalBudgetExceeded,
}

/// Limit that prevented another CAS attempt.
#[derive(Debug, Clone, Copy, PartialEq, Eq, Hash, Structural)]
#[non_exhaustive]
pub enum CasLimitKind {
    /// Maximum number of attempts.
    Attempts,
    /// Cumulative attempt time, including operation and CAS adapter work.
    OperationElapsed,
    /// Total flow elapsed time.
    TotalElapsed,
}

/// Scope of a timeout that terminated CAS execution.
#[derive(Debug, Clone, Copy, PartialEq, Eq, Hash, Structural)]
#[non_exhaustive]
pub enum CasTimeoutScope {
    /// One operation attempt.
    Attempt,
    /// The whole retry flow.
    Flow,
}

/// Structured reason why a CAS execution stopped.
#[derive(Debug, Clone, Copy, PartialEq, Eq, Hash, Structural)]
#[non_exhaustive]
pub enum CasTermination {
    /// The operation explicitly aborted.
    Aborted,
    /// A retry limit prevented another attempt.
    LimitExceeded(CasLimitKind),
    /// A hard timeout stopped execution.
    TimedOut(CasTimeoutScope),
    /// The retry infrastructure could not continue safely.
    RetryInfrastructure,
}

/// Category of an execution diagnostic, independent of retry implementation
/// types.
#[derive(Debug, Clone, Copy, PartialEq, Eq, Structural)]
#[non_exhaustive]
pub enum CasDiagnosticKind {
    /// Cancellation was observed by the retry infrastructure.
    Cancellation,
    /// A retry control or completion callback failed.
    Callback,
    /// The monotonic clock could not provide a valid reading.
    Clock,
    /// A retry timer failed.
    Timer,
    /// Another retry infrastructure component failed.
    Infrastructure,
    /// A newer retry version supplied an unrecognized terminal reason.
    UnknownRetryReason,
}

} // verus!
