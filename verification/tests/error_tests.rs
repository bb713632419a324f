use std::sync::Arc;
use std::time::Duration;

use qubit_cas::error::RetryAttemptFailure;
use qubit_cas::error::RetryStop;
use qubit_cas::error::RetryStopReason;
use qubit_cas::CasAttemptFailure;
use qubit_cas::CasAttemptFailureKind;
use qubit_cas::CasContext;
use qubit_cas::CasDiagnosticKind;
use qubit_cas::CasError;
use qubit_cas::CasErrorKind;
use qubit_cas::CasLimitKind;
use qubit_cas::CasTermination;
use qubit_cas::CasTimeoutScope;

fn context(attempts: u32, max_attempts: u32) -> CasContext {
    CasContext::new(attempts, None, max_attempts, None, None, Duration::ZERO, Duration::ZERO, None, None)
}

fn stop(reason: RetryStopReason) -> RetryStop {
    RetryStop { reason, message: String::from("stopped") }
}

fn error_for(
    reason: RetryStopReason,
    last: Option<RetryAttemptFailure<CasAttemptFailure<usize, &'static str>>>,
    timeout_current: Option<Arc<usize>>,
) -> CasError<usize, &'static str> {
    CasError::from_retry_parts(stop(reason), last, context(1, 5), timeout_current, Vec::new())
}

#[test]
fn abort_keeps_business_error_and_snapshot() {
    let failure = CasAttemptFailure::Abort { current: Arc::new(3), error: "sold out" };
    let error = error_for(RetryStopReason::Aborted, Some(RetryAttemptFailure::Error(failure)), None);
    assert_eq!(error.kind(), CasErrorKind::Abort);
    assert_eq!(error.termination(), CasTermination::Aborted);
    assert_eq!(error.error(), Some(&"sold out"));
    assert_eq!(**error.current().unwrap(), 3);
    assert_eq!(error.attempts(), 1);
    assert_eq!(error.last_failure().unwrap().kind(), CasAttemptFailureKind::Abort);
    assert!(error.diagnostic().is_none(), "ordinary business aborts have no infrastructure cause");
    assert!(error.completion_diagnostics().is_empty());
}

#[test]
fn attempt_exhaustion_by_retryable_failures() {
    let failure = CasAttemptFailure::Retry { current: Arc::new(3), error: "busy" };
    let error = CasError::from_retry_parts(
        stop(RetryStopReason::Exhausted(CasLimitKind::Attempts)),
        Some(RetryAttemptFailure::Error(failure)),
        context(1, 1),
        None,
        Vec::new(),
    );
    assert_eq!(error.termination(), CasTermination::LimitExceeded(CasLimitKind::Attempts));
    assert_eq!(error.kind(), CasErrorKind::RetryExhausted);
    assert_eq!(error.error(), Some(&"busy"));
    assert_eq!(error.attempts(), 1);
    assert!(!matches!(error.termination(), CasTermination::TimedOut(_)), "attempt exhaustion is not a timeout");
}

#[test]
fn attempt_exhaustion_by_conflicts() {
    let failure = CasAttemptFailure::Conflict { current: Arc::new(4) };
    let error = error_for(RetryStopReason::Exhausted(CasLimitKind::Attempts), Some(RetryAttemptFailure::Error(failure)), None);
    assert_eq!(error.kind(), CasErrorKind::ConflictExhausted);
    assert_eq!(error.error(), None);
    assert_eq!(**error.current().unwrap(), 4);
}

#[test]
fn budgets_take_precedence_over_last_failure() {
    let failure = CasAttemptFailure::Conflict { current: Arc::new(4) };
    let op = error_for(
        RetryStopReason::Exhausted(CasLimitKind::OperationElapsed),
        Some(RetryAttemptFailure::Error(failure.clone())),
        None,
    );
    assert_eq!(op.kind(), CasErrorKind::OperationBudgetExceeded);
    let total = error_for(RetryStopReason::Exhausted(CasLimitKind::TotalElapsed), Some(RetryAttemptFailure::Error(failure)), None);
    assert_eq!(total.kind(), CasErrorKind::TotalBudgetExceeded);
    let flow = error_for(RetryStopReason::TimedOut(CasTimeoutScope::Flow), None, None);
    assert_eq!(flow.kind(), CasErrorKind::FlowTimeout);
    assert_eq!(flow.termination(), CasTermination::TimedOut(CasTimeoutScope::Flow));
    let attempt = error_for(RetryStopReason::TimedOut(CasTimeoutScope::Attempt), None, None);
    assert_eq!(attempt.kind(), CasErrorKind::AttemptTimeout);
}

#[test]
fn timed_out_attempt_keeps_its_snapshot() {
    let error = error_for(
        RetryStopReason::Aborted,
        Some(RetryAttemptFailure::TimedOut(CasTimeoutScope::Attempt)),
        Some(Arc::new(7)),
    );
    assert_eq!(error.kind(), CasErrorKind::AttemptTimeout);
    assert!(error.last_failure().unwrap().is_timeout());
    assert_eq!(**error.current().unwrap(), 7);
    let without_snapshot = error_for(RetryStopReason::Aborted, Some(RetryAttemptFailure::TimedOut(CasTimeoutScope::Attempt)), None);
    assert!(without_snapshot.last_failure().is_none());
    assert_eq!(without_snapshot.kind(), CasErrorKind::Abort);
}

#[test]
fn timeout_exhaustion_is_attempt_timeout() {
    let error = error_for(
        RetryStopReason::Exhausted(CasLimitKind::Attempts),
        Some(RetryAttemptFailure::Error(CasAttemptFailure::Timeout { current: Arc::new(2) })),
        None,
    );
    assert_eq!(error.kind(), CasErrorKind::AttemptTimeout);
}

#[test]
fn panics_are_not_retained() {
    let error = error_for(RetryStopReason::CallbackFailed, Some(RetryAttemptFailure::Panicked), Some(Arc::new(1)));
    assert!(error.last_failure().is_none());
    assert!(error.current().is_none());
    assert_eq!(error.kind(), CasErrorKind::RetryInfrastructure);
    assert_eq!(error.termination(), CasTermination::RetryInfrastructure);
}

#[test]
fn infrastructure_reasons_carry_diagnostics() {
    let cases = [
        (RetryStopReason::Cancelled, CasDiagnosticKind::Cancellation),
        (RetryStopReason::CallbackFailed, CasDiagnosticKind::Callback),
        (RetryStopReason::ClockFailure, CasDiagnosticKind::Clock),
        (RetryStopReason::TimerFailure, CasDiagnosticKind::Timer),
        (RetryStopReason::InfrastructureFailure, CasDiagnosticKind::Infrastructure),
        (RetryStopReason::Unrecognized, CasDiagnosticKind::UnknownRetryReason),
    ];
    for (reason, kind) in cases {
        let error = error_for(reason, None, None);
        let diagnostic = error.diagnostic().expect("infrastructure diagnostic");
        assert_eq!(diagnostic.kind(), kind);
        assert_eq!(diagnostic.message(), "stopped");
        assert_eq!(error.termination(), CasTermination::RetryInfrastructure);
        assert_eq!(error.kind(), CasErrorKind::RetryInfrastructure);
    }
}

#[test]
fn completion_failures_become_callback_diagnostics() {
    let error = CasError::<usize, ()>::from_retry_parts(
        stop(RetryStopReason::Aborted),
        None,
        context(0, 5),
        None,
        vec![String::from("first"), String::from("second")],
    );
    let diagnostics = error.completion_diagnostics();
    assert_eq!(diagnostics.len(), 2);
    assert_eq!(diagnostics[0].kind(), CasDiagnosticKind::Callback);
    assert_eq!(diagnostics[0].message(), "first");
    assert_eq!(diagnostics[1].message(), "second");
    assert_eq!(error.attempts(), 0);
    assert_eq!(error.context().max_attempts(), 5);
}

#[test]
fn classify_kind_with_borrowed_failure() {
    let conflict: CasAttemptFailure<usize, ()> = CasAttemptFailure::Conflict { current: Arc::new(1) };
    assert_eq!(
        CasError::<usize, ()>::classify_kind(CasTermination::LimitExceeded(CasLimitKind::Attempts), Some(&conflict)),
        CasErrorKind::ConflictExhausted
    );
    assert_eq!(
        CasError::<usize, ()>::classify_kind(CasTermination::LimitExceeded(CasLimitKind::Attempts), None),
        CasErrorKind::RetryExhausted
    );
    assert_eq!(CasError::<usize, ()>::classify_kind(CasTermination::Aborted, Some(&conflict)), CasErrorKind::Abort);
}

#[test]
fn into_last_failure_returns_owned_failure() {
    let failure = CasAttemptFailure::Retry { current: Arc::new(3), error: "busy" };
    let error = error_for(RetryStopReason::Exhausted(CasLimitKind::Attempts), Some(RetryAttemptFailure::Error(failure.clone())), None);
    assert_eq!(error.into_last_failure(), Some(failure));
}

#[test]
fn clone_keeps_the_retained_failure() {
    let failure = CasAttemptFailure::Retry { current: Arc::new(7), error: "busy" };
    let error = error_for(RetryStopReason::Exhausted(CasLimitKind::Attempts), Some(RetryAttemptFailure::Error(failure)), None);
    let copy = error.clone();
    assert_eq!(copy.kind(), error.kind());
    assert_eq!(copy.termination(), error.termination());
    assert_eq!(copy.attempts(), error.attempts());
    assert_eq!(copy.clone().into_last_failure(), error.last_failure().cloned());
    assert_eq!(copy.to_string(), error.to_string());
}
