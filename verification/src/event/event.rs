//! Lifecycle events emitted by CAS executions.
use std::time::Duration;
use std::time::Instant;

use vstd::prelude::*;

use super::context::CasContext;
use crate::error::CasAttemptFailureKind;
use crate::report::CasExecutionReport;

verus! {

/// Lifecycle event emitted by a CAS execution.
#[derive(Debug, Clone)]
pub enum CasEvent {
    /// The execution started before the first attempt.
    ExecutionStarted {
        /// Instant captured when the execution started.
        started_at: Instant,
    },
    /// One attempt failed.
    AttemptFailed {
        /// Context captured for the failed attempt.
        context: CasContext,
        /// Attempt-level failure kind.
        kind: CasAttemptFailureKind,
    },
    /// A retry passed the scheduling checks and has a selected backoff delay.
    RetryScheduled {
        /// Context captured after the failed attempt.
        context: CasContext,
        /// Delay selected before the next attempt.
        delay: Duration,
    },
    /// The execution finished and produced a report.
    ExecutionFinished {
        /// Terminal snapshot captured before completion and alert callbacks.
        report: CasExecutionReport,
    },
}

} // verus!
