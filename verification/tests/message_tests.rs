use std::sync::Arc;
use std::time::Duration;

use qubit_cas::error::RetryAttemptFailure;
use qubit_cas::error::RetryStop;
use qubit_cas::error::RetryStopReason;
use qubit_cas::CasAttemptFailure;
use qubit_cas::CasBuildError;
use qubit_cas::CasContext;
use qubit_cas::CasDiagnostic;
use qubit_cas::CasDiagnosticKind;
use qubit_cas::CasError;
use qubit_cas::CasLimitKind;
use qubit_cas::CasListenerFailure;
use qubit_cas::CasListenerKind;

fn context(attempts: u32) -> CasContext {
    CasContext::new(attempts, None, 5, None, None, Duration::ZERO, Duration::ZERO, None, None)
}

#[test]
fn attempt_failure_messages() {
    let retry: CasAttemptFailure<usize, &str> = CasAttemptFailure::Retry { current: Arc::new(1), error: "busy" };
    assert_eq!(retry.to_string(), "retryable CAS failure: busy");
    let abort: CasAttemptFailure<usize, &str> = CasAttemptFailure::Abort { current: Arc::new(1), error: "sold out" };
    assert_eq!(abort.to_string(), "aborted CAS failure: sold out");
    let conflict: CasAttemptFailure<usize, &str> = CasAttemptFailure::Conflict { current: Arc::new(1) };
    assert_eq!(conflict.to_string(), "compare-and-swap conflict");
    let timeout: CasAttemptFailure<usize, &str> = CasAttemptFailure::Timeout { current: Arc::new(1) };
    assert_eq!(timeout.to_string(), "CAS attempt timed out");
}

#[test]
fn error_message_with_failure_and_diagnostics() {
    let failure = CasAttemptFailure::Retry { current: Arc::new(3), error: "busy" };
    let error = CasError::from_retry_parts(
        RetryStop { reason: RetryStopReason::Exhausted(CasLimitKind::Attempts), message: String::from("exhausted") },
        Some(RetryAttemptFailure::Error(failure)),
        context(12),
        None,
        vec![String::from("observer panicked")],
    );
    assert_eq!(
        error.to_string(),
        "CAS retryable failures exhausted after 12 attempt(s); last failure: retryable CAS failure: busy; completion diagnostic: observer panicked"
    );
}

#[test]
fn error_message_with_infrastructure_diagnostic() {
    let error = CasError::<usize, &str>::from_retry_parts(
        RetryStop { reason: RetryStopReason::TimerFailure, message: String::from("timer broke") },
        None,
        context(0),
        None,
        Vec::new(),
    );
    assert_eq!(error.to_string(), "CAS retry infrastructure failed after 0 attempt(s); diagnostic: timer broke");
}

#[test]
fn other_messages() {
    let build = CasBuildError::new("retry_policy", String::from("max_attempts: maximum attempts must be greater than zero"));
    assert_eq!(
        build.to_string(),
        "invalid CAS builder field `retry_policy`: max_attempts: maximum attempts must be greater than zero"
    );
    assert!(build.to_string().contains(build.field()));
    let diagnostic = CasDiagnostic::new(CasDiagnosticKind::Clock, String::from("clock went backwards"));
    assert_eq!(diagnostic.to_string(), "clock went backwards");
    let listener = CasListenerFailure::new(CasListenerKind::ExecutionStarted, String::from("metrics unavailable"));
    assert_eq!(listener.to_string(), "CAS ExecutionStarted listener failed: metrics unavailable");
}
