//! Mutable accumulator used while one CAS flow is running.
use std::time::Duration;
use std::time::Instant;

use vstd::prelude::*;

use super::execution_report::CasExecutionOutcome;
use super::execution_report::CasExecutionReport;
use crate::clock::monotonic_now;
use crate::clock::not_after;
use crate::error::CasAttemptFailureKind;
use crate::event::CasListenerFailure;

verus! {

/// Plain snapshot of the values a [`CasReportBuilder`] has accumulated.
pub struct CasReportBuilderView {
    /// Monotonic instant captured when the accumulator started.
    pub started_at: Instant,
    /// Number of failed compare-and-swap publications.
    pub conflicts: u32,
    /// Number of retryable business failures.
    pub retry_errors: u32,
    /// Number of explicit business aborts.
    pub aborts: u32,
    /// Number of observed attempt timeouts.
    pub timeouts: u32,
    /// Isolated listener panics, in dispatch order.
    pub listener_failures: Seq<CasListenerFailure>,
}

/// One more occurrence added to a counter, saturating at `u32::MAX`.
pub open spec fn saturating_increment(count: u32) -> u32 {
    if count == u32::MAX {
        u32::MAX
    } else {
        (count + 1) as u32
    }
}

/// Accumulated values after recording one attempt failure of `kind`: exactly
/// the counter named by `kind` grows by one (saturating), and nothing else
/// changes.
pub open spec fn recorded(v: CasReportBuilderView, kind: CasAttemptFailureKind) -> CasReportBuilderView {
    match kind {
        CasAttemptFailureKind::Conflict => CasReportBuilderView {
            conflicts: saturating_increment(v.conflicts),
            ..v
        },
        CasAttemptFailureKind::Retry => CasReportBuilderView {
            retry_errors: saturating_increment(v.retry_errors),
            ..v
        },
        CasAttemptFailureKind::Abort => CasReportBuilderView { aborts: saturating_increment(v.aborts), ..v },
        CasAttemptFailureKind::Timeout => CasReportBuilderView {
            timeouts: saturating_increment(v.timeouts),
            ..v
        },
    }
}

/// Mutable accumulator used internally while one CAS flow is running.
#[derive(Debug, Clone)]
pub struct CasReportBuilder {
    started_at: Instant,
    conflicts: u32,
    retry_errors: u32,
    aborts: u32,
    timeouts: u32,
    listener_failures: Vec<CasListenerFailure>,
}

impl View for CasReportBuilder {
    type V = CasReportBuilderView;

    closed spec fn view(&self) -> CasReportBuilderView {
        CasReportBuilderView {
            started_at: self.started_at,
            conflicts: self.conflicts,
            retry_errors: self.retry_errors,
            aborts: self.aborts,
            timeouts: self.timeouts,
            listener_failures: self.listener_failures@,
        }
    }
}

impl CasReportBuilder {
    /// Starts one report accumulator with the current instant and zeroed
    /// counters.
    pub fn start() -> (r: Self)
        ensures
            r@.conflicts == 0,
            r@.retry_errors == 0,
            r@.aborts == 0,
            r@.timeouts == 0,
            r@.listener_failures.len() == 0,
    {
        CasReportBuilder {
            started_at: monotonic_now(None),
            conflicts: 0,
            retry_errors: 0,
            aborts: 0,
            timeouts: 0,
            listener_failures: Vec::new(),
        }
    }

    /// Returns the start instant captured for this report.
    pub fn started_at(&self) -> (r: Instant)
        ensures
            r == self@.started_at,
    {
        self.started_at
    }

    /// Clones the accumulated listener failures; an empty vector means no
    /// listener failed.
    pub fn listener_failures(&self) -> (r: Vec<CasListenerFailure>)
        ensures
            r@ == self@.listener_failures,
    {
        self.listener_failures.clone()
    }

    /// Records one compare-and-swap conflict.
    pub fn record_conflict(&mut self)
        ensures
            final(self)@ == recorded(old(self)@, CasAttemptFailureKind::Conflict),
    {
        self.conflicts = self.conflicts.saturating_add(1);
    }

    /// Records one retryable business failure.
    pub fn record_retry_error(&mut self)
        ensures
            final(self)@ == recorded(old(self)@, CasAttemptFailureKind::Retry),
    {
        self.retry_errors = self.retry_errors.saturating_add(1);
    }

    /// Records one aborting business failure.
    pub fn record_abort(&mut self)
        ensures
            final(self)@ == recorded(old(self)@, CasAttemptFailureKind::Abort),
    {
        self.aborts = self.aborts.saturating_add(1);
    }

    /// Records one async attempt timeout.
    pub fn record_timeout(&mut self)
        ensures
            final(self)@ == recorded(old(self)@, CasAttemptFailureKind::Timeout),
    {
        self.timeouts = self.timeouts.saturating_add(1);
    }

    /// Records one attempt failure in the counter that matches its kind.
    pub fn record_attempt_failure(&mut self, kind: CasAttemptFailureKind)
        ensures
            final(self)@ == recorded(old(self)@, kind),
    {
        match kind {
            CasAttemptFailureKind::Conflict => self.record_conflict(),
            CasAttemptFailureKind::Retry => self.record_retry_error(),
            CasAttemptFailureKind::Abort => self.record_abort(),
            CasAttemptFailureKind::Timeout => self.record_timeout(),
        }
    }

    /// Records an isolated listener failure after those already retained.
    pub fn record_listener_failure(&mut self, failure: CasListenerFailure)
        ensures
            final(self)@ == (CasReportBuilderView {
                listener_failures: old(self)@.listener_failures.push(failure),
                ..old(self)@
            }),
    {
        self.listener_failures.push(failure);
    }

    /// Finishes the accumulator into an immutable report stamped with the
    /// current instant.
    pub fn finish(
        &self,
        attempts_total: u32,
        max_attempts: u32,
        max_operation_elapsed: Option<Duration>,
        max_total_elapsed: Option<Duration>,
        outcome: CasExecutionOutcome,
    ) -> (r: CasExecutionReport)
        ensures
            r@.attempts_total == attempts_total,
            r@.conflicts == self@.conflicts,
            r@.retry_errors == self@.retry_errors,
            r@.aborts == self@.aborts,
            r@.timeouts == self@.timeouts,
            r@.started_at == self@.started_at,
            r@.max_attempts == max_attempts,
            r@.max_operation_elapsed == max_operation_elapsed,
            r@.max_total_elapsed == max_total_elapsed,
            r@.outcome == outcome,
            r@.listener_failures == self@.listener_failures,
            not_after(r@.started_at, r@.finished_at),
    {
        CasExecutionReport::new(
            attempts_total,
            self.conflicts,
            self.retry_errors,
            self.aborts,
            self.timeouts,
            self.started_at,
            monotonic_now(Some(self.started_at)),
            max_attempts,
            max_operation_elapsed,
            max_total_elapsed,
            outcome,
        ).with_listener_failures(self.listener_failures.clone())
    }
}

} // verus!
