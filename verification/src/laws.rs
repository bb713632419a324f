//! Properties that hold across the operations of the library.
use std::sync::Arc;
use std::time::Duration;

use vstd::prelude::*;

use crate::error::diagnostic_kind_of;
use crate::error::error_cloned;
use crate::error::failure_cloned;
use crate::error::retained_cloned;
use crate::error::CasError;
use crate::error::error_kind_of;
use crate::error::retained_failure;
use crate::error::termination_of;
use crate::error::CasAttemptFailure;
use crate::error::CasAttemptFailureKind;
use crate::error::CasErrorKind;
use crate::error::CasLimitKind;
use crate::error::CasTermination;
use crate::error::CasTimeoutScope;
use crate::error::RetryAttemptFailure;
use crate::error::RetryStopReason;
use crate::executor::attempts_for_retries;
use crate::executor::fixed_backoff;
use crate::executor::installs_no_delay;
use crate::executor::uniform_backoff;
use crate::executor::CasBuilderView;
use crate::executor::error_outcome_of;
use crate::executor::finish_context_of;
use crate::executor::observed_kind_of;
use crate::executor::public_result_of;
use crate::executor::verdict_for;
use crate::executor::AttemptSuccess;
use crate::executor::CasTerminal;
use crate::executor::RetryVerdict;
use crate::options::AttemptTimeoutAction;
use crate::report::recorded;
use crate::report::saturating_increment;
use crate::report::CasExecutionOutcome;
use crate::report::CasReportBuilderView;

verus! {

/// Whether a report outcome describes a successful flow.
pub open spec fn is_success_outcome(outcome: CasExecutionOutcome) -> bool {
    outcome == CasExecutionOutcome::SuccessUpdated || outcome == CasExecutionOutcome::SuccessFinished
}

/// A CAS error carries an infrastructure diagnostic exactly when the retry
/// layer stopped for an infrastructure reason; aborts, exhausted limits and
/// hard timeouts never carry one.
pub proof fn diagnostic_only_for_infrastructure_stops(reason: RetryStopReason)
    ensures
        diagnostic_kind_of(reason) is Some <==> termination_of(reason)
            == CasTermination::RetryInfrastructure,
{
}

/// Budget exhaustion, hard timeouts and infrastructure stops decide the error
/// kind on their own: the last attempt failure only refines an abort or
/// attempt exhaustion.
pub proof fn stop_reason_takes_precedence<T, E>(
    termination: CasTermination,
    a: Option<CasAttemptFailure<T, E>>,
    b: Option<CasAttemptFailure<T, E>>,
)
    requires
        termination != CasTermination::Aborted,
        termination != CasTermination::LimitExceeded(CasLimitKind::Attempts),
    ensures
        error_kind_of(termination, a) == error_kind_of(termination, b),
{
}

/// Attempt exhaustion is reported as conflict exhaustion exactly when the
/// last retained failure was a conflict, and a business abort is reported as
/// an abort unless the last attempt timed out.
pub proof fn last_failure_refines_exhaustion_and_abort<T, E>(last: Option<CasAttemptFailure<T, E>>)
    ensures
        (error_kind_of(CasTermination::LimitExceeded(CasLimitKind::Attempts), last)
            == CasErrorKind::ConflictExhausted) <==> (last matches Some(f) && f is Conflict),
        (error_kind_of(CasTermination::Aborted, last) == CasErrorKind::Abort) <==> !(last matches Some(
            f,
        ) && f is Timeout),
{
}

/// A timed-out attempt is retained with the snapshot it used when that
/// snapshot is known; application failures are retained unchanged; panics
/// are never retained.
pub proof fn retained_failure_keeps_snapshots<T, E>(
    failure: Option<RetryAttemptFailure<CasAttemptFailure<T, E>>>,
    timeout_current: Option<Arc<T>>,
)
    ensures
        failure matches Some(RetryAttemptFailure::Error(f)) ==> retained_failure(
            failure,
            timeout_current,
        ) == Some(f),
        failure matches Some(RetryAttemptFailure::TimedOut(_)) ==> (timeout_current matches Some(c)
            ==> (retained_failure(failure, timeout_current) matches Some(r) && r is Timeout
            && r.spec_current() == c)),
        failure matches Some(RetryAttemptFailure::Panicked) ==> retained_failure(
            failure,
            timeout_current,
        ) is None,
{
}

/// Different error kinds are reported with different report outcomes, and
/// none of them is a success outcome.
pub proof fn error_outcomes_are_distinct(a: CasErrorKind, b: CasErrorKind)
    ensures
        (error_outcome_of(a) == error_outcome_of(b)) <==> (a == b),
        !is_success_outcome(error_outcome_of(a)),
{
}

/// The report of a finished execution describes success exactly when the
/// execution returned a success, and a written update exactly when the
/// success installed a new state.
pub proof fn report_outcome_matches_result<T, R, E>(terminal: CasTerminal<T, R, E>)
    ensures
        is_success_outcome(finish_context_of(terminal).outcome) <==> public_result_of(terminal) is Ok,
        (finish_context_of(terminal).outcome == CasExecutionOutcome::SuccessUpdated) <==> (public_result_of(
            terminal,
        ) matches Ok(s) && s is Updated),
{
    match terminal {
        Ok((success, context)) => {
            match success {
                AttemptSuccess::Updated { .. } => {},
                AttemptSuccess::Finished { .. } => {},
            }
        },
        Err(error) => {
            error_outcomes_are_distinct(error.spec_kind(), error.spec_kind());
        },
    }
}

/// Conflicts and retryable business failures are always retried, business
/// aborts always stop the flow, and an attempt-scope timeout is retried only
/// when the executor retries on timeout.
pub proof fn retry_verdicts(kind: CasAttemptFailureKind, action: AttemptTimeoutAction)
    ensures
        kind == CasAttemptFailureKind::Conflict ==> verdict_for(RetryAttemptFailure::Error(kind), action)
            == RetryVerdict::Retry,
        kind == CasAttemptFailureKind::Retry ==> verdict_for(RetryAttemptFailure::Error(kind), action)
            == RetryVerdict::Retry,
        kind == CasAttemptFailureKind::Abort ==> verdict_for(RetryAttemptFailure::Error(kind), action)
            == RetryVerdict::Abort,
        (verdict_for(
            RetryAttemptFailure::<CasAttemptFailureKind>::TimedOut(CasTimeoutScope::Attempt),
            action,
        ) == RetryVerdict::Retry) <==> action == AttemptTimeoutAction::Retry,
{
}

/// Every failed attempt that the retry rule retries or aborts on is counted
/// in the report.
pub proof fn decided_failures_are_counted(
    failure: RetryAttemptFailure<CasAttemptFailureKind>,
    action: AttemptTimeoutAction,
)
    ensures
        verdict_for(failure, action) != RetryVerdict::UseDefault ==> observed_kind_of(failure) is Some,
{
}

/// Number of occurrences of `kind` in `kinds`.
pub open spec fn occurrences(kinds: Seq<CasAttemptFailureKind>, kind: CasAttemptFailureKind) -> nat
    decreases kinds.len(),
{
    if kinds.len() == 0 {
        0
    } else {
        occurrences(kinds.drop_last(), kind) + if kinds.last() == kind {
            1nat
        } else {
            0nat
        }
    }
}

/// Accumulated values after recording each failure kind of `kinds` in order.
pub open spec fn recorded_all(v: CasReportBuilderView, kinds: Seq<CasAttemptFailureKind>) -> CasReportBuilderView
    decreases kinds.len(),
{
    if kinds.len() == 0 {
        v
    } else {
        recorded(recorded_all(v, kinds.drop_last()), kinds.last())
    }
}

/// Count after `n` more occurrences, saturating at `u32::MAX`.
pub open spec fn saturating_plus(count: u32, n: nat) -> u32 {
    if count + n >= u32::MAX {
        u32::MAX
    } else {
        (count + n) as u32
    }
}

/// Recording a sequence of attempt failures adds to each counter the number
/// of failures of its kind (saturating at `u32::MAX`) and leaves the start
/// instant and listener failures unchanged.
pub proof fn counters_count_recorded_failures(v: CasReportBuilderView, kinds: Seq<CasAttemptFailureKind>)
    ensures
        recorded_all(v, kinds).conflicts == saturating_plus(
            v.conflicts,
            occurrences(kinds, CasAttemptFailureKind::Conflict),
        ),
        recorded_all(v, kinds).retry_errors == saturating_plus(
            v.retry_errors,
            occurrences(kinds, CasAttemptFailureKind::Retry),
        ),
        recorded_all(v, kinds).aborts == saturating_plus(
            v.aborts,
            occurrences(kinds, CasAttemptFailureKind::Abort),
        ),
        recorded_all(v, kinds).timeouts == saturating_plus(
            v.timeouts,
            occurrences(kinds, CasAttemptFailureKind::Timeout),
        ),
        recorded_all(v, kinds).started_at == v.started_at,
        recorded_all(v, kinds).listener_failures == v.listener_failures,
    decreases kinds.len(),
{
    if kinds.len() > 0 {
        counters_count_recorded_failures(v, kinds.drop_last());
    }
}

/// Allowing `n` retries permits exactly `n` retries after the first attempt,
/// except at `u32::MAX`, where the attempt limit saturates.
pub proof fn retries_round_trip(n: u32)
    ensures
        n < u32::MAX ==> attempts_for_retries(n) - 1 == n,
        n == u32::MAX ==> attempts_for_retries(n) == u32::MAX,
        attempts_for_retries(n) > 0,
{
}

/// The failure retained by a clone of an error, and a clone of the failure
/// retained by the error itself, are both clones of the original's retained
/// failure; where the business error's clones equal their source, they are
/// the same failure.
pub proof fn cloned_errors_retain_cloned_failures<T, E: Clone>(
    error: CasError<T, E>,
    copy: CasError<T, E>,
    copied_failure: Option<CasAttemptFailure<T, E>>,
)
    requires
        error_cloned(error, copy),
        error.spec_last_failure() is None ==> copied_failure is None,
        error.spec_last_failure() matches Some(f) ==> copied_failure matches Some(g) && cloned::<
            CasAttemptFailure<T, E>,
        >(f, g),
    ensures
        retained_cloned(error.spec_last_failure(), copy.spec_last_failure()),
        (forall|x: E, y: E| #[trigger] cloned::<E>(x, y) ==> x == y) ==> copy.spec_last_failure()
            == copied_failure,
{
    if let Some(f) = error.spec_last_failure() {
        let g = copied_failure.unwrap();
        if f != g {
            assert(failure_cloned(f, g));
        }
    }
}

/// A flow-scope hard timeout is never retried or aborted by the CAS rule,
/// whatever the executor does after an attempt timeout: the retry layer's
/// default handling ends the flow as a flow timeout.
pub proof fn flow_timeouts_are_left_to_the_retry_layer(action: AttemptTimeoutAction)
    ensures
        verdict_for(RetryAttemptFailure::TimedOut(CasTimeoutScope::Flow), action) == RetryVerdict::UseDefault,
{
}

/// The attempt-timeout action matters only for attempt-scope timeouts: every
/// other failure gets the same verdict under both actions.
pub proof fn only_attempt_timeouts_depend_on_the_action(
    failure: RetryAttemptFailure<CasAttemptFailureKind>,
    a: AttemptTimeoutAction,
    b: AttemptTimeoutAction,
)
    ensures
        failure != RetryAttemptFailure::<CasAttemptFailureKind>::TimedOut(CasTimeoutScope::Attempt)
            ==> verdict_for(failure, a) == verdict_for(failure, b),
{
}

/// Only a business abort stops the flow from the CAS rule; timeouts, panics
/// and every other failure are never aborted by it.
pub proof fn only_business_aborts_stop_the_flow(
    failure: RetryAttemptFailure<CasAttemptFailureKind>,
    action: AttemptTimeoutAction,
)
    ensures
        (verdict_for(failure, action) == RetryVerdict::Abort) <==> failure
            == RetryAttemptFailure::<CasAttemptFailureKind>::Error(CasAttemptFailureKind::Abort),
{
}

/// The report counter that records failures of `kind`.
pub open spec fn counter_for(v: CasReportBuilderView, kind: CasAttemptFailureKind) -> u32 {
    match kind {
        CasAttemptFailureKind::Conflict => v.conflicts,
        CasAttemptFailureKind::Retry => v.retry_errors,
        CasAttemptFailureKind::Abort => v.aborts,
        CasAttemptFailureKind::Timeout => v.timeouts,
    }
}

/// An observed application failure is counted and announced under its own
/// kind, a hard timeout of either scope as a timeout, and a panic not at all;
/// counting one failure grows the counter of its kind by one (saturating) and
/// no other counter.
pub proof fn failures_are_counted_under_their_own_kind(
    v: CasReportBuilderView,
    kind: CasAttemptFailureKind,
    other: CasAttemptFailureKind,
    scope: CasTimeoutScope,
)
    ensures
        observed_kind_of(RetryAttemptFailure::Error(kind)) == Some(kind),
        observed_kind_of(RetryAttemptFailure::<CasAttemptFailureKind>::TimedOut(scope)) == Some(
            CasAttemptFailureKind::Timeout,
        ),
        observed_kind_of(RetryAttemptFailure::<CasAttemptFailureKind>::Panicked) is None,
        counter_for(recorded(v, kind), kind) == saturating_increment(counter_for(v, kind)),
        other != kind ==> counter_for(recorded(v, kind), other) == counter_for(v, other),
{
}

/// The report of a failed execution carries the outcome of the returned
/// error's own kind: each error kind has its own outcome, and two failed
/// executions report the same outcome exactly when their errors have the same
/// kind.
pub proof fn failed_reports_name_the_error_kind<T, R, E>(a: CasError<T, E>, b: CasError<T, E>)
    ensures
        ({
            let outcome = finish_context_of(Err::<(AttemptSuccess<T, R>, crate::CasContext), CasError<T, E>>(a)).outcome;
            &&& (a.spec_kind() == CasErrorKind::Abort) <==> outcome == CasExecutionOutcome::ErrorAbort
            &&& (a.spec_kind() == CasErrorKind::ConflictExhausted) <==> outcome
                == CasExecutionOutcome::ErrorConflictExhausted
            &&& (a.spec_kind() == CasErrorKind::RetryExhausted) <==> outcome
                == CasExecutionOutcome::ErrorRetryExhausted
            &&& (a.spec_kind() == CasErrorKind::AttemptTimeout) <==> outcome
                == CasExecutionOutcome::ErrorAttemptTimeout
            &&& (a.spec_kind() == CasErrorKind::FlowTimeout) <==> outcome
                == CasExecutionOutcome::ErrorFlowTimeout
            &&& (a.spec_kind() == CasErrorKind::RetryInfrastructure) <==> outcome
                == CasExecutionOutcome::ErrorRetryInfrastructure
            &&& (a.spec_kind() == CasErrorKind::OperationBudgetExceeded) <==> outcome
                == CasExecutionOutcome::ErrorOperationBudgetExceeded
            &&& (a.spec_kind() == CasErrorKind::TotalBudgetExceeded) <==> outcome
                == CasExecutionOutcome::ErrorTotalBudgetExceeded
        }),
        (finish_context_of(Err::<(AttemptSuccess<T, R>, crate::CasContext), CasError<T, E>>(a)).outcome
            == finish_context_of(Err::<(AttemptSuccess<T, R>, crate::CasContext), CasError<T, E>>(b)).outcome)
            <==> (a.spec_kind() == b.spec_kind()),
{
}

/// Installing immediate retries discards whatever delay was set before: the
/// new backoff is valid and is no fixed or uniform delay, and every other
/// setting is kept.
pub proof fn no_delay_discards_earlier_delays(
    before: CasBuilderView,
    after: CasBuilderView,
    delay: Duration,
    min: Duration,
    max: Duration,
)
    requires
        installs_no_delay(before, after),
    ensures
        after.backoff is Ok,
        after.backoff != Ok::<qubit_retry::BackoffPolicy, qubit_retry::RetryPolicyError>(fixed_backoff(delay)),
        after.backoff != uniform_backoff(min, max),
        after.max_attempts == before.max_attempts,
        after.max_operation_elapsed == before.max_operation_elapsed,
        after.max_total_elapsed == before.max_total_elapsed,
        after.flow_timeout == before.flow_timeout,
        after.attempt_timeout == before.attempt_timeout,
        after.attempt_timeout_action == before.attempt_timeout_action,
{
    let policy = after.backoff->Ok_0;
    assert(fixed_backoff(delay) != policy);
    assert(uniform_backoff(min, max) != Ok::<qubit_retry::BackoffPolicy, qubit_retry::RetryPolicyError>(policy));
}

} // verus!
