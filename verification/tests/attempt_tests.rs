use std::sync::Arc;

use qubit_atomic::AtomicRef;
use qubit_cas::error::RetryAttemptFailure;
use qubit_cas::executor::apply_decision;
use qubit_cas::executor::observed_failure_kind;
use qubit_cas::executor::publish_update;
use qubit_cas::executor::retry_decision;
use qubit_cas::executor::run_attempt;
use qubit_cas::executor::AttemptSuccess;
use qubit_cas::executor::RetryVerdict;
use qubit_cas::options::AttemptTimeoutAction;
use qubit_cas::CasAttemptFailure;
use qubit_cas::CasAttemptFailureKind;
use qubit_cas::CasDecision;
use qubit_cas::CasTimeoutScope;

#[test]
fn update_decision_commits_and_keeps_snapshots() {
    let state = AtomicRef::from_value(3usize);
    let result = run_attempt(&state, &|current: &usize| CasDecision::<usize, &str, ()>::update(*current - 1, "reserved"));
    match result {
        Ok(AttemptSuccess::Updated { previous, current, output }) => {
            assert_eq!(*previous, 3);
            assert_eq!(*current, 2);
            assert_eq!(output, "reserved");
        }
        _ => panic!("expected a committed update"),
    }
    assert_eq!(*state.load(), 2);
}

#[test]
fn finish_decision_never_writes() {
    let state = AtomicRef::from_value(3usize);
    let result = run_attempt(&state, &|_: &usize| CasDecision::<usize, &str, ()>::finish("available"));
    match result {
        Ok(AttemptSuccess::Finished { current, output }) => {
            assert_eq!(*current, 3);
            assert_eq!(output, "available");
        }
        _ => panic!("expected a finish"),
    }
    assert_eq!(*state.load(), 3);
}

#[test]
fn retry_and_abort_keep_snapshot_and_error() {
    let state = AtomicRef::from_value(3usize);
    let retry = run_attempt(&state, &|_: &usize| CasDecision::<usize, (), &str>::retry("busy"));
    assert_eq!(retry, Err(CasAttemptFailure::Retry { current: Arc::new(3), error: "busy" }));
    let abort = run_attempt(&state, &|_: &usize| CasDecision::<usize, (), &str>::abort("sold out"));
    assert_eq!(abort, Err(CasAttemptFailure::Abort { current: Arc::new(3), error: "sold out" }));
    assert_eq!(*state.load(), 3);
}

#[test]
fn stale_snapshot_conflicts_with_the_winning_state() {
    let state = AtomicRef::from_value(3usize);
    let stale = state.load();
    state.store(Arc::new(4));
    let result = apply_decision(&state, stale, CasDecision::<usize, (), ()>::update(5, ()));
    match result {
        Err(CasAttemptFailure::Conflict { current }) => assert_eq!(*current, 4),
        _ => panic!("expected a conflict"),
    }
    assert_eq!(*state.load(), 4);
}

#[test]
fn publish_update_maps_exchange_outcome() {
    let ok = publish_update::<usize, u8, ()>(Arc::new(1), Arc::new(2), 7, Ok(()));
    assert_eq!(ok, Ok(AttemptSuccess::Updated { previous: Arc::new(1), current: Arc::new(2), output: 7 }));
    let err = publish_update::<usize, u8, ()>(Arc::new(1), Arc::new(2), 7, Err(Arc::new(9)));
    assert_eq!(err, Err(CasAttemptFailure::Conflict { current: Arc::new(9) }));
}

#[test]
fn retry_verdicts_follow_failure_kind() {
    assert_eq!(retry_decision(RetryAttemptFailure::Error(CasAttemptFailureKind::Conflict), AttemptTimeoutAction::Abort), RetryVerdict::Retry);
    assert_eq!(retry_decision(RetryAttemptFailure::Error(CasAttemptFailureKind::Retry), AttemptTimeoutAction::Abort), RetryVerdict::Retry);
    assert_eq!(retry_decision(RetryAttemptFailure::Error(CasAttemptFailureKind::Abort), AttemptTimeoutAction::Retry), RetryVerdict::Abort);
    assert_eq!(retry_decision(RetryAttemptFailure::Error(CasAttemptFailureKind::Timeout), AttemptTimeoutAction::Retry), RetryVerdict::UseDefault);
    assert_eq!(retry_decision(RetryAttemptFailure::TimedOut(CasTimeoutScope::Attempt), AttemptTimeoutAction::Retry), RetryVerdict::Retry);
    assert_eq!(retry_decision(RetryAttemptFailure::TimedOut(CasTimeoutScope::Attempt), AttemptTimeoutAction::Abort), RetryVerdict::UseDefault);
    assert_eq!(retry_decision(RetryAttemptFailure::TimedOut(CasTimeoutScope::Flow), AttemptTimeoutAction::Retry), RetryVerdict::UseDefault);
    assert_eq!(retry_decision(RetryAttemptFailure::Panicked, AttemptTimeoutAction::Retry), RetryVerdict::UseDefault);
}

#[test]
fn observed_failures_are_counted_by_kind() {
    assert_eq!(observed_failure_kind(RetryAttemptFailure::Error(CasAttemptFailureKind::Abort)), Some(CasAttemptFailureKind::Abort));
    assert_eq!(observed_failure_kind(RetryAttemptFailure::TimedOut(CasTimeoutScope::Flow)), Some(CasAttemptFailureKind::Timeout));
    assert_eq!(observed_failure_kind(RetryAttemptFailure::Panicked), None);
    assert_eq!(observed_failure_kind(RetryAttemptFailure::Unrecognized), None);
}

#[test]
fn attempt_failure_accessors() {
    let failure: CasAttemptFailure<usize, &str> = CasAttemptFailure::Abort { current: Arc::new(3), error: "sold out" };
    assert_eq!(failure.kind(), CasAttemptFailureKind::Abort);
    assert_eq!(**failure.current(), 3);
    assert_eq!(failure.error(), Some(&"sold out"));
    assert!(failure.is_abort() && !failure.is_retry() && !failure.is_conflict() && !failure.is_timeout());
    let conflict: CasAttemptFailure<usize, &str> = CasAttemptFailure::Conflict { current: Arc::new(4) };
    assert_eq!(conflict.error(), None);
    assert_eq!(conflict.kind(), CasAttemptFailureKind::Conflict);
    let timeout: CasAttemptFailure<usize, &str> = CasAttemptFailure::Timeout { current: Arc::new(5) };
    assert!(timeout.is_timeout());
    assert_eq!(timeout.kind(), CasAttemptFailureKind::Timeout);
}

#[test]
fn decision_constructors() {
    let update = CasDecision::<usize, &str, ()>::update(4, "out");
    assert_eq!(update, CasDecision::Update { next: Arc::new(4), output: "out" });
    let arc = CasDecision::<usize, &str, ()>::update_arc(Arc::new(5), "o");
    assert_eq!(arc, CasDecision::Update { next: Arc::new(5), output: "o" });
    assert_eq!(CasDecision::<usize, &str, ()>::finish("f"), CasDecision::Finish { output: "f" });
    assert_eq!(CasDecision::<usize, (), u8>::retry(1), CasDecision::Retry(1));
    assert_eq!(CasDecision::<usize, (), u8>::abort(2), CasDecision::Abort(2));
}
