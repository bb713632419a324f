//! Plain descriptions of how the retry layer ended a CAS flow.
//!
//! Retry execution reports its terminal reason and the last attempt failure
//! in its own types; execution front-ends describe them with these values so
//! that CAS classification can be stated and checked independently of the
//! retry implementation.
use vstd::prelude::*;

use super::kinds::CasLimitKind;
use super::kinds::CasTimeoutScope;

verus! {

/// Reason reported by the retry layer for stopping a flow.
#[derive(Debug, Clone, Copy, PartialEq, Eq, Structural)]
pub enum RetryStopReason {
    /// A retry rule deliberately stopped the flow.
    Aborted,
    /// A continuation limit prevented another attempt.
    Exhausted(CasLimitKind),
    /// A hard timeout stopped execution.
    TimedOut(CasTimeoutScope),
    /// External cancellation stopped execution.
    Cancelled,
    /// A retry rule or observer panicked.
    CallbackFailed,
    /// The monotonic clock could not provide a valid reading.
    ClockFailure,
    /// A retry timer failed.
    TimerFailure,
    /// Another retry infrastructure component failed.
    InfrastructureFailure,
    /// A reason this library does not recognize.
    Unrecognized,
}

/// Terminal reason together with the retry layer's description of it.
#[derive(Debug, Clone)]
pub struct RetryStop {
    /// Classified stopping reason.
    pub reason: RetryStopReason,
    /// Human-readable description supplied by the retry layer.
    pub message: String,
}

/// Last attempt failure as reported by the retry layer.
#[derive(Debug, Clone)]
pub enum RetryAttemptFailure<F> {
    /// The operation returned an application failure.
    Error(F),
    /// The attempt was stopped by a hard timeout.
    TimedOut(CasTimeoutScope),
    /// The operation panicked.
    Panicked,
    /// A failure shape this library does not recognize.
    Unrecognized,
}

} // verus!
