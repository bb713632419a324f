use std::sync::Arc;
use std::time::Duration;

use qubit_cas::error::RetryStop;
use qubit_cas::error::RetryStopReason;
use qubit_cas::executor::error_outcome;
use qubit_cas::executor::finish_execution;
use qubit_cas::executor::AttemptSuccess;
use qubit_cas::executor::CasReportFinishContext;
use qubit_cas::report::CasReportBuilder;
use qubit_cas::CasAttemptFailureKind;
use qubit_cas::CasContext;
use qubit_cas::CasError;
use qubit_cas::CasErrorKind;
use qubit_cas::CasExecutionOutcome;
use qubit_cas::CasExecutionReport;
use qubit_cas::CasListenerFailure;
use qubit_cas::CasListenerKind;
use qubit_cas::CasOutcome;
use qubit_cas::CasSuccess;

fn context(attempts: u32, max_attempts: u32) -> CasContext {
    CasContext::new(
        attempts,
        Some(attempts),
        max_attempts,
        Some(Duration::from_millis(5)),
        None,
        Duration::from_millis(1),
        Duration::ZERO,
        None,
        None,
    )
}

#[test]
fn builder_counts_each_failure_kind() {
    let mut builder = CasReportBuilder::start();
    builder.record_conflict();
    builder.record_attempt_failure(CasAttemptFailureKind::Conflict);
    builder.record_retry_error();
    builder.record_abort();
    builder.record_timeout();
    builder.record_attempt_failure(CasAttemptFailureKind::Timeout);
    builder.record_listener_failure(CasListenerFailure::new(CasListenerKind::AttemptFailed, String::from("boom")));
    let report = builder.finish(4, 5, None, None, CasExecutionOutcome::ErrorAbort);
    assert_eq!(report.conflicts(), 2);
    assert_eq!(report.retry_errors(), 1);
    assert_eq!(report.aborts(), 1);
    assert_eq!(report.timeouts(), 2);
    assert_eq!(report.attempts_total(), 4);
    assert_eq!(report.max_attempts(), 5);
    assert_eq!(report.outcome(), CasExecutionOutcome::ErrorAbort);
    assert_eq!(report.started_at(), builder.started_at());
    assert!(report.finished_at() >= report.started_at());
    assert_eq!(report.elapsed(), report.finished_at().duration_since(report.started_at()));
    assert_eq!(report.listener_failures().len(), 1);
    assert_eq!(report.listener_failures()[0].kind(), CasListenerKind::AttemptFailed);
    assert_eq!(report.listener_failures()[0].message(), "boom");
    assert_eq!(builder.listener_failures().len(), 1);
}

#[test]
fn finished_success_reports_its_outcome() {
    let builder = CasReportBuilder::start();
    let success = AttemptSuccess::<usize, &str>::Finished { current: Arc::new(3), output: "available" };
    let outcome: CasOutcome<usize, &str, ()> = finish_execution(Ok((success, context(1, 5))), &builder);
    assert!(outcome.is_ok());
    assert!(!outcome.is_err());
    assert_eq!(outcome.report().outcome(), CasExecutionOutcome::SuccessFinished);
    assert_eq!(outcome.report().attempts_total(), 1);
    assert_eq!(outcome.report().max_attempts(), 5);
    assert_eq!(outcome.report().max_operation_elapsed(), Some(Duration::from_millis(5)));
    let (result, report) = outcome.into_parts();
    assert_eq!(*result.unwrap().output(), "available");
    assert_eq!(report.attempts_total(), 1);
}

#[test]
fn updated_success_is_enriched_with_context() {
    let builder = CasReportBuilder::start();
    let success = AttemptSuccess::<usize, &str>::Updated { previous: Arc::new(3), current: Arc::new(2), output: "reserved" };
    let outcome: CasOutcome<usize, &str, ()> = finish_execution(Ok((success, context(2, 5))), &builder);
    assert_eq!(outcome.report().outcome(), CasExecutionOutcome::SuccessUpdated);
    let success = outcome.expect("updated");
    assert!(success.is_updated());
    assert_eq!(**success.previous().unwrap(), 3);
    assert_eq!(**success.current(), 2);
    assert_eq!(*success.output(), "reserved");
    assert_eq!(success.attempts(), 2);
    assert_eq!(success.context().current_attempt(), Some(2));
    assert_eq!(success.into_output(), "reserved");
}

#[test]
fn failed_execution_reports_error_outcome() {
    let mut builder = CasReportBuilder::start();
    builder.record_retry_error();
    let error = CasError::<usize, &str>::from_retry_parts(
        RetryStop { reason: RetryStopReason::Aborted, message: String::from("aborted") },
        None,
        context(1, 5),
        None,
        Vec::new(),
    );
    let outcome: CasOutcome<usize, (), &str> = finish_execution(Err(error), &builder);
    assert!(outcome.is_err());
    assert_eq!(outcome.report().outcome(), CasExecutionOutcome::ErrorAbort);
    assert_eq!(outcome.report().retry_errors(), 1);
    let error = outcome.expect_err("aborted");
    assert_eq!(error.kind(), CasErrorKind::Abort);
}

#[test]
fn every_error_kind_has_its_outcome() {
    assert_eq!(error_outcome(CasErrorKind::Abort), CasExecutionOutcome::ErrorAbort);
    assert_eq!(error_outcome(CasErrorKind::ConflictExhausted), CasExecutionOutcome::ErrorConflictExhausted);
    assert_eq!(error_outcome(CasErrorKind::RetryExhausted), CasExecutionOutcome::ErrorRetryExhausted);
    assert_eq!(error_outcome(CasErrorKind::AttemptTimeout), CasExecutionOutcome::ErrorAttemptTimeout);
    assert_eq!(error_outcome(CasErrorKind::FlowTimeout), CasExecutionOutcome::ErrorFlowTimeout);
    assert_eq!(error_outcome(CasErrorKind::RetryInfrastructure), CasExecutionOutcome::ErrorRetryInfrastructure);
    assert_eq!(error_outcome(CasErrorKind::OperationBudgetExceeded), CasExecutionOutcome::ErrorOperationBudgetExceeded);
    assert_eq!(error_outcome(CasErrorKind::TotalBudgetExceeded), CasExecutionOutcome::ErrorTotalBudgetExceeded);
}

#[test]
fn report_from_parts() {
    let now = std::time::Instant::now();
    let report = CasExecutionReport::new(3, 1, 1, 0, 0, now, now, 5, None, Some(Duration::from_secs(1)), CasExecutionOutcome::SuccessUpdated);
    assert_eq!(report.attempts_total(), 3);
    assert_eq!(report.conflicts(), 1);
    assert_eq!(report.retry_errors(), 1);
    assert_eq!(report.aborts(), 0);
    assert_eq!(report.timeouts(), 0);
    assert_eq!(report.max_total_elapsed(), Some(Duration::from_secs(1)));
    assert_eq!(report.elapsed(), Duration::ZERO);
    assert!(report.listener_failures().is_empty());
    let with = report.with_listener_failures(vec![CasListenerFailure::new(CasListenerKind::ContentionAlert, String::from("x"))]);
    assert_eq!(with.listener_failures().len(), 1);
    assert_eq!(with.attempts_total(), 3);
}

#[test]
fn finish_context_from_terminal_context() {
    let ctx = CasReportFinishContext::from_context(context(2, 7), CasExecutionOutcome::ErrorRetryExhausted);
    assert_eq!(ctx.attempts_total, 2);
    assert_eq!(ctx.max_attempts, 7);
    assert_eq!(ctx.max_operation_elapsed, Some(Duration::from_millis(5)));
    assert_eq!(ctx.max_total_elapsed, None);
    assert_eq!(ctx.outcome, CasExecutionOutcome::ErrorRetryExhausted);
}

#[test]
fn success_accessors_without_write() {
    let success: CasSuccess<usize, u8> = CasSuccess::finished(Arc::new(3), 9, context(1, 5));
    assert!(!success.is_updated());
    assert!(success.previous().is_none());
    assert_eq!(**success.current(), 3);
    assert_eq!(success.attempts(), 1);
}

#[test]
fn late_listener_failures_follow_the_retained_ones() {
    let now = std::time::Instant::now();
    let report = CasExecutionReport::new(2, 1, 0, 0, 0, now, now, 5, None, None, CasExecutionOutcome::SuccessUpdated)
        .with_listener_failures(vec![CasListenerFailure::new(CasListenerKind::AttemptFailed, String::from("early"))]);
    let late = vec![
        CasListenerFailure::new(CasListenerKind::ExecutionFinished, String::from("finished")),
        CasListenerFailure::new(CasListenerKind::ContentionAlert, String::from("alert")),
    ];
    let merged = report.with_late_listener_failures(late);
    let messages: Vec<&str> = merged.listener_failures().iter().map(|f| f.message()).collect();
    assert_eq!(messages, vec!["early", "finished", "alert"]);
    assert_eq!(merged.attempts_total(), 2);
    assert_eq!(merged.conflicts(), 1);
    let unchanged = merged.clone().with_late_listener_failures(Vec::new());
    assert_eq!(unchanged.listener_failures().len(), 3);
}

#[test]
fn cloned_outcome_keeps_its_success_and_report() {
    let builder = CasReportBuilder::start();
    let success = AttemptSuccess::<usize, String>::Updated {
        previous: Arc::new(1),
        current: Arc::new(2),
        output: String::from("written"),
    };
    let outcome: CasOutcome<usize, String, ()> = finish_execution(Ok((success, context(1, 5))), &builder);
    let copy = outcome.clone();
    assert_eq!(copy.report().started_at(), outcome.report().started_at());
    assert_eq!(copy.report().finished_at(), outcome.report().finished_at());
    assert!(copy.report().started_at() <= copy.report().finished_at());
    let cloned_success = copy.expect("the outcome succeeded");
    let original = outcome.expect("the outcome succeeded");
    assert_eq!(cloned_success, original);
    assert_eq!(*cloned_success.clone().output(), "written");
}
