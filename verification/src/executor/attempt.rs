//! Application of one CAS decision to the shared state.
use std::sync::Arc;

use qubit_atomic::AtomicRef;
use vstd::prelude::*;

use super::shared_state::compare_and_publish;
use super::shared_state::load_snapshot;
use crate::decision::CasDecision;
use crate::error::CasAttemptFailure;

verus! {

/// Success payload of one attempt, before retry-context enrichment.
#[derive(Debug, Clone, PartialEq, Eq)]
pub enum AttemptSuccess<T, R> {
    /// One compare-and-swap write succeeded.
    Updated {
        /// State observed by the successful attempt.
        previous: Arc<T>,
        /// State installed by the successful attempt.
        current: Arc<T>,
        /// Business output returned by the operation.
        output: R,
    },
    /// The operation completed successfully without writing.
    Finished {
        /// State observed by the successful attempt.
        current: Arc<T>,
        /// Business output returned by the operation.
        output: R,
    },
}

/// Result of one attempt: a success payload or an attempt-level failure.
pub type AttemptResult<T, R, E> = Result<AttemptSuccess<T, R>, CasAttemptFailure<T, E>>;

/// Result of publishing an update of `current` to `next`, given whether the
/// compare-and-swap installed it (`Ok`) or which state prevented it (`Err`).
pub open spec fn published<T, R, E>(
    current: Arc<T>,
    next: Arc<T>,
    output: R,
    cas: Result<(), Arc<T>>,
) -> AttemptResult<T, R, E> {
    match cas {
        Ok(()) => Ok(AttemptSuccess::Updated { previous: current, current: next, output }),
        Err(actual) => Err(CasAttemptFailure::Conflict { current: actual }),
    }
}

/// Whether `r` is a possible result of applying `decision` to the snapshot
/// `current`: an update either commits (previous = snapshot, current = new
/// state) or conflicts; finish, retry and abort never write and keep the
/// snapshot they were decided on.
pub open spec fn decision_applied<T, R, E>(
    current: Arc<T>,
    decision: CasDecision<T, R, E>,
    r: AttemptResult<T, R, E>,
) -> bool {
    match decision {
        CasDecision::Update { next, output } => exists|cas: Result<(), Arc<T>>|
            #[trigger] published::<T, R, E>(current, next, output, cas) == r,
        CasDecision::Finish { output } => r == Ok::<AttemptSuccess<T, R>, CasAttemptFailure<T, E>>(
            AttemptSuccess::Finished { current, output },
        ),
        CasDecision::Retry(error) => r == Err::<AttemptSuccess<T, R>, CasAttemptFailure<T, E>>(
            CasAttemptFailure::Retry { current, error },
        ),
        CasDecision::Abort(error) => r == Err::<AttemptSuccess<T, R>, CasAttemptFailure<T, E>>(
            CasAttemptFailure::Abort { current, error },
        ),
    }
}

/// Turns the outcome of one compare-and-swap into the attempt result: a
/// committed update keeps the snapshot as `previous` and the new state as
/// `current`; a failed exchange is a conflict carrying the state that won.
pub fn publish_update<T, R, E>(
    current: Arc<T>,
    next: Arc<T>,
    output: R,
    cas: Result<(), Arc<T>>,
) -> (r: AttemptResult<T, R, E>)
    ensures
        r == published::<T, R, E>(current, next, output, cas),
{
    match cas {
        Ok(()) => Ok(AttemptSuccess::Updated { previous: current, current: next, output }),
        Err(actual) => Err(CasAttemptFailure::conflict(actual)),
    }
}

/// Applies one CAS decision and preserves the snapshot it was decided on.
///
/// Only an update touches the shared slot, through one compare-and-swap
/// against `current`; a failed update drops its output.
pub fn apply_decision<T, R, E>(
    state: &AtomicRef<T>,
    current: Arc<T>,
    decision: CasDecision<T, R, E>,
) -> (r: AttemptResult<T, R, E>)
    ensures
        decision_applied(current, decision, r),
{
    match decision {
        CasDecision::Update { next, output } => {
            let cas = compare_and_publish(state, &current, &next);
            let ghost g = cas;
            let r = publish_update(current, next, output, cas);
            assert(published::<T, R, E>(current, next, output, g) == r);
            r
        },
        CasDecision::Finish { output } => Ok(AttemptSuccess::Finished { current, output }),
        CasDecision::Retry(error) => Err(CasAttemptFailure::retry(current, error)),
        CasDecision::Abort(error) => Err(CasAttemptFailure::abort(current, error)),
    }
}

/// Runs one synchronous attempt: loads a snapshot, lets `operation` decide
/// on it, and applies the decision.
pub fn run_attempt<T, R, E, O>(state: &AtomicRef<T>, operation: &O) -> (r: AttemptResult<T, R, E>)
    where
        O: Fn(&T) -> CasDecision<T, R, E>,
    requires
        forall|t: &T| operation.requires((t,)),
    ensures
        exists|current: Arc<T>, decision: CasDecision<T, R, E>|
            operation.ensures((&*current,), decision) && #[trigger] decision_applied(
                current,
                decision,
                r,
            ),
{
    let current = load_snapshot(state);
    let decision = operation(&*current);
    apply_decision(state, current, decision)
}

} // verus!
