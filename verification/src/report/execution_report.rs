//! Immutable reports describing completed CAS executions.
use std::time::Duration;
use std::time::Instant;

use vstd::prelude::*;

use crate::clock::duration_between;
use crate::clock::elapsed_between;
use crate::event::CasListenerFailure;

verus! {

/// Terminal outcome captured in a CAS execution report.
#[derive(Debug, Clone, Copy, PartialEq, Eq, Structural)]
pub enum CasExecutionOutcome {
    /// The flow completed by installing a new state.
    SuccessUpdated,
    /// The flow completed successfully without writing.
    SuccessFinished,
    /// The flow aborted because business logic requested an abort.
    ErrorAbort,
    /// Retry limits were exhausted by compare-and-swap conflicts.
    ErrorConflictExhausted,
    /// Retry limits were exhausted by retryable business failures.
    ErrorRetryExhausted,
    /// The flow stopped because an async attempt timed out.
    ErrorAttemptTimeout,
    /// The hard whole-flow timeout fired.
    ErrorFlowTimeout,
    /// Retry infrastructure failed while scheduling or stopping work.
    ErrorRetryInfrastructure,
    /// The cumulative attempt elapsed-time budget was exceeded.
    ErrorOperationBudgetExceeded,
    /// The monotonic total retry-flow elapsed-time budget was exceeded.
    ErrorTotalBudgetExceeded,
}

/// Plain snapshot of the values a [`CasExecutionReport`] carries.
pub struct CasExecutionReportView {
    /// Total attempts executed by the retry loop.
    pub attempts_total: u32,
    /// Number of compare-and-swap conflicts.
    pub conflicts: u32,
    /// Number of retryable business failures.
    pub retry_errors: u32,
    /// Number of aborting business failures.
    pub aborts: u32,
    /// Number of async attempt timeouts.
    pub timeouts: u32,
    /// Instant captured before the first attempt.
    pub started_at: Instant,
    /// Instant captured when the flow completed.
    pub finished_at: Instant,
    /// Configured maximum attempts.
    pub max_attempts: u32,
    /// Configured maximum cumulative user operation time.
    pub max_operation_elapsed: Option<Duration>,
    /// Configured maximum total retry-flow elapsed time.
    pub max_total_elapsed: Option<Duration>,
    /// Terminal outcome.
    pub outcome: CasExecutionOutcome,
    /// Isolated listener panics, in dispatch order.
    pub listener_failures: Seq<CasListenerFailure>,
}

/// Immutable report describing one completed CAS execution.
#[derive(Debug)]
pub struct CasExecutionReport {
    attempts_total: u32,
    conflicts: u32,
    retry_errors: u32,
    aborts: u32,
    timeouts: u32,
    started_at: Instant,
    finished_at: Instant,
    max_attempts: u32,
    max_operation_elapsed: Option<Duration>,
    max_total_elapsed: Option<Duration>,
    outcome: CasExecutionOutcome,
    listener_failures: Vec<CasListenerFailure>,
}

impl View for CasExecutionReport {
    type V = CasExecutionReportView;

    closed spec fn view(&self) -> CasExecutionReportView {
        CasExecutionReportView {
            attempts_total: self.attempts_total,
            conflicts: self.conflicts,
            retry_errors: self.retry_errors,
            aborts: self.aborts,
            timeouts: self.timeouts,
            started_at: self.started_at,
            finished_at: self.finished_at,
            max_attempts: self.max_attempts,
            max_operation_elapsed: self.max_operation_elapsed,
            max_total_elapsed: self.max_total_elapsed,
            outcome: self.outcome,
            listener_failures: self.listener_failures@,
        }
    }
}

impl CasExecutionReport {
    /// Creates one report from its raw parts, without listener failures.
    #[allow(clippy::too_many_arguments)]
    pub fn new(
        attempts_total: u32,
        conflicts: u32,
        retry_errors: u32,
        aborts: u32,
        timeouts: u32,
        started_at: Instant,
        finished_at: Instant,
        max_attempts: u32,
        max_operation_elapsed: Option<Duration>,
        max_total_elapsed: Option<Duration>,
        outcome: CasExecutionOutcome,
    ) -> (r: Self)
        ensures
            r@ == (CasExecutionReportView {
                attempts_total,
                conflicts,
                retry_errors,
                aborts,
                timeouts,
                started_at,
                finished_at,
                max_attempts,
                max_operation_elapsed,
                max_total_elapsed,
                outcome,
                listener_failures: Seq::empty(),
            }),
    {
        CasExecutionReport {
            attempts_total,
            conflicts,
            retry_errors,
            aborts,
            timeouts,
            started_at,
            finished_at,
            max_attempts,
            max_operation_elapsed,
            max_total_elapsed,
            outcome,
            listener_failures: Vec::new(),
        }
    }

    /// Replaces the retained listener failures, keeping every other value.
    pub fn with_listener_failures(self, failures: Vec<CasListenerFailure>) -> (r: Self)
        ensures
            r@ == (CasExecutionReportView { listener_failures: failures@, ..self@ }),
    {
        CasExecutionReport { listener_failures: failures, ..self }
    }

    /// Appends listener failures observed after the report was finished, in
    /// dispatch order, after those it already retains; every other value is
    /// kept.
    pub fn with_late_listener_failures(self, late: Vec<CasListenerFailure>) -> (r: Self)
        ensures
            r@ == (CasExecutionReportView {
                listener_failures: self@.listener_failures + late@,
                ..self@
            }),
    {
        let mut failures = self.listener_failures;
        let mut late = late;
        failures.append(&mut late);
        CasExecutionReport { listener_failures: failures, ..self }
    }

    /// Returns total attempts executed by the retry loop.
    pub fn attempts_total(&self) -> (r: u32)
        ensures
            r == self@.attempts_total,
    {
        self.attempts_total
    }

    /// Returns the number of compare-and-swap conflicts.
    pub fn conflicts(&self) -> (r: u32)
        ensures
            r == self@.conflicts,
    {
        self.conflicts
    }

    /// Returns the number of retryable business failures.
    pub fn retry_errors(&self) -> (r: u32)
        ensures
            r == self@.retry_errors,
    {
        self.retry_errors
    }

    /// Returns the number of aborting business failures.
    pub fn aborts(&self) -> (r: u32)
        ensures
            r == self@.aborts,
    {
        self.aborts
    }

    /// Returns the number of async attempt timeouts.
    pub fn timeouts(&self) -> (r: u32)
        ensures
            r == self@.timeouts,
    {
        self.timeouts
    }

    /// Returns the instant captured before the first attempt.
    pub fn started_at(&self) -> (r: Instant)
        ensures
            r == self@.started_at,
    {
        self.started_at
    }

    /// Returns the instant captured when execution completed.
    pub fn finished_at(&self) -> (r: Instant)
        ensures
            r == self@.finished_at,
    {
        self.finished_at
    }

    /// Returns elapsed wall-clock time between the start and finish instants.
    pub fn elapsed(&self) -> (r: Duration)
        ensures
            r == elapsed_between(self@.finished_at, self@.started_at),
    {
        duration_between(self.finished_at, self.started_at)
    }

    /// Returns the configured maximum attempts.
    pub fn max_attempts(&self) -> (r: u32)
        ensures
            r == self@.max_attempts,
    {
        self.max_attempts
    }

    /// Returns the configured maximum cumulative user operation time budget.
    pub fn max_operation_elapsed(&self) -> (r: Option<Duration>)
        ensures
            r == self@.max_operation_elapsed,
    {
        self.max_operation_elapsed
    }

    /// Returns the configured maximum total retry-flow elapsed-time budget.
    pub fn max_total_elapsed(&self) -> (r: Option<Duration>)
        ensures
            r == self@.max_total_elapsed,
    {
        self.max_total_elapsed
    }

    /// Returns the terminal outcome captured in this report.
    pub fn outcome(&self) -> (r: CasExecutionOutcome)
        ensures
            r == self@.outcome,
    {
        self.outcome
    }

    /// Returns the listener panics isolated during the execution, in dispatch
    /// order; an empty slice means no listener failed.
    pub fn listener_failures(&self) -> (r: &[CasListenerFailure])
        ensures
            r@ == self@.listener_failures,
    {
        self.listener_failures.as_slice()
    }
}

impl Clone for CasExecutionReport {
    /// Copies every value of the report.
    fn clone(&self) -> (r: Self)
        ensures
            r@ == self@,
    {
        CasExecutionReport {
            attempts_total: self.attempts_total,
            conflicts: self.conflicts,
            retry_errors: self.retry_errors,
            aborts: self.aborts,
            timeouts: self.timeouts,
            started_at: self.started_at,
            finished_at: self.finished_at,
            max_attempts: self.max_attempts,
            max_operation_elapsed: self.max_operation_elapsed,
            max_total_elapsed: self.max_total_elapsed,
            outcome: self.outcome,
            listener_failures: self.listener_failures.clone(),
        }
    }
}

} // verus!
