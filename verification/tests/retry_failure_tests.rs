use qubit_cas::CasRetryFailure;
use qubit_retry::RetryLimitKind;
use qubit_retry::RetryTimeoutScope;

#[test]
fn aborted_failure_has_fixed_text_and_no_details() {
    let failure = CasRetryFailure::Aborted;
    assert_eq!(failure.to_string(), "retry aborted");
    assert_eq!(failure.limit(), None);
    assert_eq!(failure.timeout_scope(), None);
    assert_eq!(failure.cancellation_phase(), None);
    assert!(failure.callback_failure().is_none());
    assert!(failure.infrastructure_failure().is_none());
}

#[test]
fn exhausted_failure_reports_its_limit() {
    let failure = CasRetryFailure::Exhausted {
        limit: RetryLimitKind::Attempts,
    };
    assert_eq!(failure.limit(), Some(RetryLimitKind::Attempts));
    assert_eq!(failure.timeout_scope(), None);
    assert_eq!(failure.to_string(), "retry limit exhausted: attempts");
}

#[test]
fn exhausted_total_elapsed_text() {
    let failure = CasRetryFailure::Exhausted {
        limit: RetryLimitKind::TotalElapsed,
    };
    assert_eq!(failure.to_string(), "retry limit exhausted: total elapsed");
}

#[test]
fn timed_out_failure_reports_its_scope() {
    let failure = CasRetryFailure::TimedOut {
        scope: RetryTimeoutScope::Flow,
    };
    assert_eq!(failure.timeout_scope(), Some(RetryTimeoutScope::Flow));
    assert_eq!(failure.limit(), None);
    assert_eq!(failure.to_string(), "retry timed out: flow");
}

#[test]
fn unknown_failure_text() {
    let failure = CasRetryFailure::Unknown;
    assert_eq!(failure.to_string(), "unknown retry terminal failure");
    assert_eq!(failure.limit(), None);
}

#[test]
fn retry_failure_clone_is_equal() {
    let failure = CasRetryFailure::TimedOut {
        scope: RetryTimeoutScope::Attempt,
    };
    assert_eq!(failure.clone(), failure);
}
