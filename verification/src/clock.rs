//! Monotonic instants used to time CAS executions.
use std::time::Duration;
use std::time::Instant;

use vstd::prelude::*;

verus! {

#[verifier::external_type_specification]
#[verifier::external_body]
pub struct ExInstant(Instant);

/// `Instant` is `Copy`; its `Clone` returns the same instant.
pub assume_specification[ <Instant as Clone>::clone ](instant: &Instant) -> (r: Instant)
    ensures
        r == *instant,
;

/// `Duration` is `Copy`; its `Clone` returns the same duration.
pub assume_specification[ <Duration as Clone>::clone ](duration: &Duration) -> (r: Duration)
    ensures
        r == *duration,
;

/// Whether `a <= b` under the ordering of `std::time::Instant`.
pub uninterp spec fn not_after(a: Instant, b: Instant) -> bool;

/// Reads the monotonic clock with `std::time::Instant::now`.
///
/// The reading depends on when the call happens, so nothing is promised of
/// its value. `Instant` is documented as monotonically nondecreasing: a new
/// reading is never before an instant measured earlier, which the caller may
/// pass as `not_before`.
#[verifier::external_body]
pub(crate) fn monotonic_now(not_before: Option<Instant>) -> (r: Instant)
    ensures
        not_before matches Some(earlier) ==> not_after(earlier, r),
{
    Instant::now()
}

/// What `std::time::Instant::duration_since` returns for two instants: the
/// time from `earlier` to `later`, or zero when `earlier` is the later one.
pub uninterp spec fn elapsed_between(later: Instant, earlier: Instant) -> Duration;

/// Measures `later - earlier` with `std::time::Instant::duration_since`,
/// which saturates to zero when `earlier` is the later instant.
///
/// The measure depends on the two instants alone, so the result is the named
/// value for them; instants are opaque here, so no more is stated.
#[verifier::external_body]
pub(crate) fn duration_between(later: Instant, earlier: Instant) -> (r: Duration)
    ensures
        r == elapsed_between(later, earlier),
{
    later.duration_since(earlier)
}

} // verus!
