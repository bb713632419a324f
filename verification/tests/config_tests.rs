use std::time::Duration;

use qubit_cas::options::AttemptTimeoutAction;
use qubit_cas::CasContext;
use qubit_cas::CasDiagnostic;
use qubit_cas::CasDiagnosticKind;
use qubit_cas::CasExecutor;
use qubit_cas::CasObservabilityMode;
use qubit_cas::CasTimeoutPolicy;
use qubit_cas::FastCasSuccess;
use qubit_cas::ListenerPanicPolicy;
use qubit_cas::CasBuildError;

#[test]
fn default_builder_builds_default_executor() {
    let executor = CasExecutor::<usize, ()>::builder().build().unwrap();
    assert_eq!(executor.max_attempts(), 5);
    assert_eq!(executor.max_retries(), 4);
    assert_eq!(executor.max_operation_elapsed(), None);
    assert_eq!(executor.max_total_elapsed(), None);
    assert_eq!(executor.attempt_timeout(), None);
    assert_eq!(executor.flow_timeout(), None);
    assert_eq!(executor.attempt_timeout_action(), AttemptTimeoutAction::Abort);
    let copy = executor.clone();
    assert_eq!(copy.max_attempts(), 5);
    assert!(format!("{:?}", copy).starts_with("CasExecutor"));
}

#[test]
fn zero_attempts_are_rejected() {
    let error = CasExecutor::<usize, ()>::builder().max_attempts(0).build().err().expect("invalid");
    assert_eq!(error.field(), "retry_policy");
    assert_eq!(error.message(), "max_attempts: maximum attempts must be greater than zero");
}

#[test]
fn reversed_random_delay_is_rejected_at_build() {
    let result = CasExecutor::<usize, ()>::builder()
        .random_delay(Duration::from_millis(5), Duration::from_millis(1))
        .build();
    assert!(result.is_err());
    let later_fix = CasExecutor::<usize, ()>::builder()
        .random_delay(Duration::from_millis(5), Duration::from_millis(1))
        .fixed_delay(Duration::from_millis(1))
        .build();
    assert!(later_fix.is_ok());
}

#[test]
fn builder_settings_reach_executor() {
    let executor = CasExecutor::<usize, ()>::builder()
        .max_retries(2)
        .max_operation_elapsed(Some(Duration::from_millis(10)))
        .max_total_elapsed(Some(Duration::from_millis(20)))
        .attempt_timeout(Some(Duration::from_millis(3)))
        .flow_timeout(Some(Duration::from_millis(30)))
        .retry_on_timeout()
        .no_delay()
        .build()
        .unwrap();
    assert_eq!(executor.max_attempts(), 3);
    assert_eq!(executor.max_retries(), 2);
    assert_eq!(executor.max_operation_elapsed(), Some(Duration::from_millis(10)));
    assert_eq!(executor.max_total_elapsed(), Some(Duration::from_millis(20)));
    assert_eq!(executor.attempt_timeout(), Some(Duration::from_millis(3)));
    assert_eq!(executor.flow_timeout(), Some(Duration::from_millis(30)));
    assert_eq!(executor.attempt_timeout_action(), AttemptTimeoutAction::Retry);
    let back = CasExecutor::<usize, ()>::builder().retry_on_timeout().abort_on_timeout().build().unwrap();
    assert_eq!(back.attempt_timeout_action(), AttemptTimeoutAction::Abort);
}

#[test]
fn max_retries_saturates() {
    let executor = CasExecutor::<usize, ()>::builder().max_retries(u32::MAX).build().unwrap();
    assert_eq!(executor.max_attempts(), u32::MAX);
    assert_eq!(executor.max_retries(), u32::MAX - 1);
}

#[test]
fn context_accessors() {
    let context = CasContext::new(
        2,
        Some(2),
        1,
        Some(Duration::from_millis(1)),
        Some(Duration::from_millis(2)),
        Duration::from_millis(3),
        Duration::from_millis(4),
        Some(Duration::from_millis(5)),
        Some(Duration::from_millis(6)),
    );
    assert_eq!(context.attempts(), 2);
    assert_eq!(context.current_attempt(), Some(2));
    assert_eq!(context.max_attempts(), 1);
    assert_eq!(context.max_retries(), 0);
    assert_eq!(context.max_operation_elapsed(), Some(Duration::from_millis(1)));
    assert_eq!(context.max_total_elapsed(), Some(Duration::from_millis(2)));
    assert_eq!(context.total_elapsed(), Duration::from_millis(3));
    assert_eq!(context.last_attempt_elapsed(), Duration::from_millis(4));
    assert_eq!(context.current_attempt_timeout(), Some(Duration::from_millis(5)));
    assert_eq!(context.next_delay(), Some(Duration::from_millis(6)));
    let zero = CasContext::new(0, None, 0, None, None, Duration::ZERO, Duration::ZERO, None, None);
    assert_eq!(zero.max_retries(), 0);
}

#[test]
fn fast_success_update_and_finish() {
    let updated = FastCasSuccess::new(1, 2, "out", 3);
    assert!(updated.is_updated());
    assert!(!updated.is_finished());
    assert_eq!(updated.previous(), 1);
    assert_eq!(updated.current(), 2);
    assert_eq!(*updated.output(), "out");
    assert_eq!(updated.attempts(), 3);
    assert_eq!(updated.into_output(), "out");
    let finished = FastCasSuccess::new(4, 4, (), 1);
    assert!(finished.is_finished());
    assert!(!finished.is_updated());
}

#[test]
fn defaults() {
    assert_eq!(CasTimeoutPolicy::default(), CasTimeoutPolicy::Retry);
    assert_eq!(CasObservabilityMode::default(), CasObservabilityMode::ReportOnly);
    assert_eq!(ListenerPanicPolicy::default(), ListenerPanicPolicy::Propagate);
}

#[test]
fn diagnostics_and_build_errors_keep_their_text() {
    let diagnostic = CasDiagnostic::new(CasDiagnosticKind::Timer, String::from("timer failed"));
    assert_eq!(diagnostic.kind(), CasDiagnosticKind::Timer);
    assert_eq!(diagnostic.message(), "timer failed");
    let error = CasBuildError::new("max_attempts", String::from("must be positive"));
    assert_eq!(error.field(), "max_attempts");
    assert_eq!(error.message(), "must be positive");
}

#[test]
fn random_delay_installs_the_uniform_backoff() {
    let min = Duration::from_millis(1);
    let max = Duration::from_millis(5);
    let builder = CasExecutor::<usize, ()>::builder().random_delay(min, max);
    assert_eq!(builder.backoff(), &qubit_retry::BackoffPolicy::uniform(min, max));
    let reversed = CasExecutor::<usize, ()>::builder().random_delay(max, min);
    assert_eq!(reversed.backoff(), &qubit_retry::BackoffPolicy::uniform(max, min));
    assert!(reversed.backoff().is_err());
}

#[test]
fn executor_runs_the_policy_built_from_its_settings() {
    let executor = CasExecutor::<usize, ()>::builder()
        .max_attempts(3)
        .max_operation_elapsed(Some(Duration::from_millis(5)))
        .fixed_delay(Duration::from_millis(2))
        .build()
        .unwrap();
    let expected = qubit_retry::RetryPolicy::builder()
        .max_attempts(3)
        .operation_time_budget_opt(Some(Duration::from_millis(5)))
        .total_time_budget_opt(None)
        .backoff(qubit_retry::BackoffPolicy::fixed(Duration::from_millis(2)))
        .build()
        .unwrap();
    assert_eq!(executor.retry_policy(), &expected);
    assert_eq!(executor.clone().retry_policy(), &expected);
}

#[test]
fn fixed_delay_installs_the_fixed_backoff() {
    let delay = Duration::from_millis(3);
    let builder = CasExecutor::<usize, ()>::builder().fixed_delay(delay);
    assert_eq!(builder.backoff(), &Ok(qubit_retry::BackoffPolicy::fixed(delay)));
    assert_ne!(builder.backoff(), &Ok(qubit_retry::BackoffPolicy::immediate()));
}
