//! Retry classification of attempt failures and conversion of terminal
//! values into public CAS results and reports.
use std::time::Duration;

use vstd::prelude::*;

use super::attempt::AttemptSuccess;
use crate::clock::not_after;
use crate::error::CasAttemptFailureKind;
use crate::error::CasError;
use crate::error::CasErrorKind;
use crate::error::CasTimeoutScope;
use crate::error::RetryAttemptFailure;
use crate::event::CasContext;
use crate::options::AttemptTimeoutAction;
use crate::outcome::CasOutcome;
use crate::report::CasExecutionOutcome;
use crate::report::CasReportBuilder;
use crate::success::CasSuccess;

verus! {

/// How the retry layer should treat one failed attempt.
#[derive(Debug, Clone, Copy, PartialEq, Eq, Structural)]
pub enum RetryVerdict {
    /// Schedule another attempt when the policy admits one.
    Retry,
    /// Stop the flow now.
    Abort,
    /// Leave the choice to the retry layer's default handling.
    UseDefault,
}

/// Verdict for a failed attempt: conflicts and retryable business failures
/// retry, business aborts abort, an attempt-scope hard timeout retries only
/// when the executor retries on timeout, and everything else is left to the
/// retry layer.
pub open spec fn verdict_for(
    failure: RetryAttemptFailure<CasAttemptFailureKind>,
    action: AttemptTimeoutAction,
) -> RetryVerdict {
    match failure {
        RetryAttemptFailure::Error(CasAttemptFailureKind::Conflict) => RetryVerdict::Retry,
        RetryAttemptFailure::Error(CasAttemptFailureKind::Retry) => RetryVerdict::Retry,
        RetryAttemptFailure::Error(CasAttemptFailureKind::Abort) => RetryVerdict::Abort,
        RetryAttemptFailure::Error(CasAttemptFailureKind::Timeout) => RetryVerdict::UseDefault,
        RetryAttemptFailure::TimedOut(CasTimeoutScope::Attempt) => if action
            == AttemptTimeoutAction::Retry {
            RetryVerdict::Retry
        } else {
            RetryVerdict::UseDefault
        },
        _ => RetryVerdict::UseDefault,
    }
}

/// Classifies one retry-layer failure without producing side effects.
pub fn retry_decision(
    failure: RetryAttemptFailure<CasAttemptFailureKind>,
    action: AttemptTimeoutAction,
) -> (r: RetryVerdict)
    ensures
        r == verdict_for(failure, action),
{
    match failure {
        RetryAttemptFailure::Error(CasAttemptFailureKind::Conflict) => RetryVerdict::Retry,
        RetryAttemptFailure::Error(CasAttemptFailureKind::Retry) => RetryVerdict::Retry,
        RetryAttemptFailure::Error(CasAttemptFailureKind::Abort) => RetryVerdict::Abort,
        RetryAttemptFailure::Error(CasAttemptFailureKind::Timeout) => RetryVerdict::UseDefault,
        RetryAttemptFailure::TimedOut(CasTimeoutScope::Attempt) => {
            if action == AttemptTimeoutAction::Retry {
                RetryVerdict::Retry
            } else {
                RetryVerdict::UseDefault
            }
        },
        RetryAttemptFailure::TimedOut(CasTimeoutScope::Flow) => RetryVerdict::UseDefault,
        RetryAttemptFailure::Panicked => RetryVerdict::UseDefault,
        RetryAttemptFailure::Unrecognized => RetryVerdict::UseDefault,
    }
}

/// Counter and event kind for an observed failed attempt: application
/// failures count by their own kind, hard attempt timeouts count as
/// timeouts, and panics or unrecognized failures are not counted.
pub open spec fn observed_kind_of(failure: RetryAttemptFailure<CasAttemptFailureKind>) -> Option<
    CasAttemptFailureKind,
> {
    match failure {
        RetryAttemptFailure::Error(kind) => Some(kind),
        RetryAttemptFailure::TimedOut(_) => Some(CasAttemptFailureKind::Timeout),
        _ => None,
    }
}

/// Returns the kind under which an observed failed attempt is counted and
/// reported, or `None` when it is not counted.
pub fn observed_failure_kind(failure: RetryAttemptFailure<CasAttemptFailureKind>) -> (r: Option<
    CasAttemptFailureKind,
>)
    ensures
        r == observed_kind_of(failure),
{
    match failure {
        RetryAttemptFailure::Error(kind) => Some(kind),
        RetryAttemptFailure::TimedOut(_) => Some(CasAttemptFailureKind::Timeout),
        RetryAttemptFailure::Panicked => None,
        RetryAttemptFailure::Unrecognized => None,
    }
}

/// Public success built from an attempt success and the terminal context.
pub open spec fn enriched<T, R>(success: AttemptSuccess<T, R>, context: CasContext) -> CasSuccess<T, R> {
    match success {
        AttemptSuccess::Updated { previous, current, output } => CasSuccess::Updated {
            previous,
            current,
            output,
            context,
        },
        AttemptSuccess::Finished { current, output } => CasSuccess::Finished { current, output, context },
    }
}

/// Enriches an attempt success with the terminal retry context, keeping the
/// attempt's snapshots and output.
pub fn enrich_success<T, R>(success: AttemptSuccess<T, R>, context: CasContext) -> (r: CasSuccess<T, R>)
    ensures
        r == enriched(success, context),
{
    match success {
        AttemptSuccess::Updated { previous, current, output } => CasSuccess::updated(
            previous,
            current,
            output,
            context,
        ),
        AttemptSuccess::Finished { current, output } => CasSuccess::finished(current, output, context),
    }
}

/// Report outcome of a successful flow.
pub open spec fn success_outcome_of<T, R>(success: AttemptSuccess<T, R>) -> CasExecutionOutcome {
    match success {
        AttemptSuccess::Updated { .. } => CasExecutionOutcome::SuccessUpdated,
        AttemptSuccess::Finished { .. } => CasExecutionOutcome::SuccessFinished,
    }
}

/// Report outcome of a failed flow, one per error kind.
pub open spec fn error_outcome_of(kind: CasErrorKind) -> CasExecutionOutcome {
    match kind {
        CasErrorKind::Abort => CasExecutionOutcome::ErrorAbort,
        CasErrorKind::ConflictExhausted => CasExecutionOutcome::ErrorConflictExhausted,
        CasErrorKind::RetryExhausted => CasExecutionOutcome::ErrorRetryExhausted,
        CasErrorKind::AttemptTimeout => CasExecutionOutcome::ErrorAttemptTimeout,
        CasErrorKind::FlowTimeout => CasExecutionOutcome::ErrorFlowTimeout,
        CasErrorKind::RetryInfrastructure => CasExecutionOutcome::ErrorRetryInfrastructure,
        CasErrorKind::OperationBudgetExceeded => CasExecutionOutcome::ErrorOperationBudgetExceeded,
        CasErrorKind::TotalBudgetExceeded => CasExecutionOutcome::ErrorTotalBudgetExceeded,
    }
}

/// Returns the report outcome of a successful flow.
pub fn success_outcome<T, R>(success: &AttemptSuccess<T, R>) -> (r: CasExecutionOutcome)
    ensures
        r == success_outcome_of(*success),
{
    match success {
        AttemptSuccess::Updated { .. } => CasExecutionOutcome::SuccessUpdated,
        AttemptSuccess::Finished { .. } => CasExecutionOutcome::SuccessFinished,
    }
}

/// Maps a terminal CAS error kind to its report outcome.
pub fn error_outcome(kind: CasErrorKind) -> (r: CasExecutionOutcome)
    ensures
        r == error_outcome_of(kind),
{
    match kind {
        CasErrorKind::Abort => CasExecutionOutcome::ErrorAbort,
        CasErrorKind::ConflictExhausted => CasExecutionOutcome::ErrorConflictExhausted,
        CasErrorKind::RetryExhausted => CasExecutionOutcome::ErrorRetryExhausted,
        CasErrorKind::AttemptTimeout => CasExecutionOutcome::ErrorAttemptTimeout,
        CasErrorKind::FlowTimeout => CasExecutionOutcome::ErrorFlowTimeout,
        CasErrorKind::RetryInfrastructure => CasExecutionOutcome::ErrorRetryInfrastructure,
        CasErrorKind::OperationBudgetExceeded => CasExecutionOutcome::ErrorOperationBudgetExceeded,
        CasErrorKind::TotalBudgetExceeded => CasExecutionOutcome::ErrorTotalBudgetExceeded,
    }
}

/// Snapshot of retry limits plus the terminal execution outcome.
#[derive(Debug, Clone, Copy)]
pub struct CasReportFinishContext {
    /// Total attempts executed by the retry flow.
    pub attempts_total: u32,
    /// Configured maximum number of attempts.
    pub max_attempts: u32,
    /// Configured cumulative operation elapsed-time budget.
    pub max_operation_elapsed: Option<Duration>,
    /// Configured total retry-flow elapsed-time budget.
    pub max_total_elapsed: Option<Duration>,
    /// Terminal outcome assigned to the report.
    pub outcome: CasExecutionOutcome,
}

impl CasReportFinishContext {
    /// Creates a terminal report context.
    pub fn new(
        attempts_total: u32,
        max_attempts: u32,
        max_operation_elapsed: Option<Duration>,
        max_total_elapsed: Option<Duration>,
        outcome: CasExecutionOutcome,
    ) -> (r: Self)
        ensures
            r == (CasReportFinishContext {
                attempts_total,
                max_attempts,
                max_operation_elapsed,
                max_total_elapsed,
                outcome,
            }),
    {
        CasReportFinishContext { attempts_total, max_attempts, max_operation_elapsed, max_total_elapsed, outcome }
    }

    /// Report context taken from a terminal retry context.
    pub open spec fn of_context(context: CasContext, outcome: CasExecutionOutcome) -> Self {
        CasReportFinishContext {
            attempts_total: context@.attempts,
            max_attempts: context@.max_attempts,
            max_operation_elapsed: context@.max_operation_elapsed,
            max_total_elapsed: context@.max_total_elapsed,
            outcome,
        }
    }

    /// Takes the counters and limits of a terminal retry context.
    pub fn from_context(context: CasContext, outcome: CasExecutionOutcome) -> (r: Self)
        ensures
            r == Self::of_context(context, outcome),
    {
        CasReportFinishContext::new(
            context.attempts(),
            context.max_attempts(),
            context.max_operation_elapsed(),
            context.max_total_elapsed(),
            outcome,
        )
    }
}

/// Terminal value of one retry flow: the successful attempt with its terminal
/// context, or the projected CAS error.
pub type CasTerminal<T, R, E> = Result<(AttemptSuccess<T, R>, CasContext), CasError<T, E>>;

/// Report context owed to a terminal value: a success reports its terminal
/// context and success outcome; an error reports its own context and the
/// outcome of its kind.
pub open spec fn finish_context_of<T, R, E>(terminal: CasTerminal<T, R, E>) -> CasReportFinishContext {
    match terminal {
        Ok((success, context)) => CasReportFinishContext::of_context(context, success_outcome_of(success)),
        Err(error) => CasReportFinishContext::of_context(
            error.spec_context(),
            error_outcome_of(error.spec_kind()),
        ),
    }
}

/// Public result owed to a terminal value.
pub open spec fn public_result_of<T, R, E>(terminal: CasTerminal<T, R, E>) -> Result<
    CasSuccess<T, R>,
    CasError<T, E>,
> {
    match terminal {
        Ok((success, context)) => Ok(enriched(success, context)),
        Err(error) => Err(error),
    }
}

/// Finalizes one retry execution into the public CAS outcome.
///
/// The report carries the counters accumulated in `report_builder`, the
/// attempt count and limits of the terminal context, and the outcome that
/// matches the terminal value.
pub fn finish_execution<T, R, E>(
    terminal: CasTerminal<T, R, E>,
    report_builder: &CasReportBuilder,
) -> (r: CasOutcome<T, R, E>)
    ensures
        r.spec_result() == public_result_of(terminal),
        ({
            let ctx = finish_context_of(terminal);
            let report = r.spec_report()@;
            &&& report.attempts_total == ctx.attempts_total
            &&& report.max_attempts == ctx.max_attempts
            &&& report.max_operation_elapsed == ctx.max_operation_elapsed
            &&& report.max_total_elapsed == ctx.max_total_elapsed
            &&& report.outcome == ctx.outcome
            &&& report.conflicts == report_builder@.conflicts
            &&& report.retry_errors == report_builder@.retry_errors
            &&& report.aborts == report_builder@.aborts
            &&& report.timeouts == report_builder@.timeouts
            &&& report.started_at == report_builder@.started_at
            &&& report.listener_failures == report_builder@.listener_failures
            &&& not_after(report.started_at, report.finished_at)
        }),
{
    match terminal {
        Ok((success, context)) => {
            let outcome = success_outcome(&success);
            let ctx = CasReportFinishContext::from_context(context, outcome);
            let report = report_builder.finish(
                ctx.attempts_total,
                ctx.max_attempts,
                ctx.max_operation_elapsed,
                ctx.max_total_elapsed,
                ctx.outcome,
            );
            CasOutcome::new(Ok(enrich_success(success, context)), report)
        },
        Err(error) => {
            let outcome = error_outcome(error.kind());
            let ctx = CasReportFinishContext::from_context(error.context(), outcome);
            let report = report_builder.finish(
                ctx.attempts_total,
                ctx.max_attempts,
                ctx.max_operation_elapsed,
                ctx.max_total_elapsed,
                ctx.outcome,
            );
            CasOutcome::new(Err(error), report)
        },
    }
}

} // verus!
