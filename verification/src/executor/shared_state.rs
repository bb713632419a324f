//! Access to the shared atomic state slot that CAS executions publish into.
use std::sync::Arc;

use qubit_atomic::AtomicRef;
use vstd::prelude::*;

verus! {

#[verifier::external_type_specification]
#[verifier::external_body]
#[verifier::reject_recursive_types(T)]
pub struct ExAtomicRef<T>(AtomicRef<T>);

/// Loads the current snapshot with `qubit_atomic::AtomicRef::load`.
///
/// The slot is shared with other writers, so nothing is promised of which
/// snapshot is returned.
#[verifier::external_body]
pub(crate) fn load_snapshot<T>(state: &AtomicRef<T>) -> Arc<T> {
    state.load()
}

/// Publishes `next` with `qubit_atomic::AtomicRef::compare_set` when the slot
/// still holds `current` (compared by pointer identity).
///
/// The upstream call returns `Ok(())` after installing `next`, or
/// `Err(actual)` with the reference that prevented the exchange. Which of the
/// two happens depends on concurrent writers, so nothing is promised of the
/// result here.
#[verifier::external_body]
pub(crate) fn compare_and_publish<T>(state: &AtomicRef<T>, current: &Arc<T>, next: &Arc<T>) -> Result<(), Arc<T>> {
    state.compare_set(current, Arc::clone(next))
}

} // verus!
