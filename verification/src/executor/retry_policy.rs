//! Retry policies validated by `qubit_retry`.
use std::time::Duration;

use qubit_retry::BackoffPolicy;
use qubit_retry::RetryPolicy;
use qubit_retry::RetryPolicyError;
use vstd::prelude::*;

verus! {

#[verifier::external_type_specification]
#[verifier::external_body]
pub struct ExRetryPolicy(RetryPolicy);

#[verifier::external_type_specification]
#[verifier::external_body]
pub struct ExBackoffPolicy(BackoffPolicy);

#[verifier::external_type_specification]
#[verifier::external_body]
pub struct ExRetryPolicyError(RetryPolicyError);

/// `qubit_retry::BackoffPolicy::immediate`: retries without sleeping. Its
/// strategy is `Immediate`, while `fixed` builds a `Fixed` strategy and a
/// successful `uniform` a `Uniform` one, so the immediate policy equals none
/// of them.
pub assume_specification[ BackoffPolicy::immediate ]() -> (r: BackoffPolicy)
    ensures
        waits_no_delay(r),
;

/// Whether `backoff` retries without a delay policy: it is neither a
/// fixed-delay nor a uniform-delay policy.
pub open spec fn waits_no_delay(backoff: BackoffPolicy) -> bool {
    &&& forall|delay: Duration| #[trigger] fixed_backoff(delay) != backoff
    &&& forall|min: Duration, max: Duration| #[trigger] uniform_backoff(min, max) != Ok::<
        BackoffPolicy,
        RetryPolicyError,
    >(backoff)
}

/// What `qubit_retry::BackoffPolicy::fixed` returns for a delay: the policy
/// that waits that delay before each retry.
pub uninterp spec fn fixed_backoff(delay: Duration) -> BackoffPolicy;

/// `qubit_retry::BackoffPolicy::fixed`: a pure function of its delay, so the
/// result is the named value for it.
pub assume_specification[ BackoffPolicy::fixed ](delay: Duration) -> (r: BackoffPolicy)
    ensures
        r == fixed_backoff(delay),
;

/// What `qubit_retry::BackoffPolicy::uniform` returns for two delay bounds:
/// a uniform-delay policy, or the error for `min > max`.
pub uninterp spec fn uniform_backoff(min: Duration, max: Duration) -> Result<BackoffPolicy, RetryPolicyError>;

/// Whether `a <= b` under the ordering of `std::time::Duration`.
pub uninterp spec fn delay_at_most(a: Duration, b: Duration) -> bool;

/// `qubit_retry::BackoffPolicy::uniform`: a pure function of its bounds, so
/// the result is the named value for them. Upstream validation accepts the
/// bounds exactly when `min <= max` and returns an error otherwise.
pub assume_specification[ BackoffPolicy::uniform ](min: Duration, max: Duration) -> (r: Result<
    BackoffPolicy,
    RetryPolicyError,
>)
    ensures
        r == uniform_backoff(min, max),
        r is Ok <==> delay_at_most(min, max),
;

/// `RetryPolicy` derives `Clone` over value fields: a clone is the same value.
pub assume_specification[ <RetryPolicy as Clone>::clone ](policy: &RetryPolicy) -> (r: RetryPolicy)
    ensures
        r == *policy,
;

/// What `qubit_retry::RetryPolicy::builder()` gives after setting the attempt
/// limit, both soft elapsed-time budgets and the backoff, then `build`.
pub uninterp spec fn built_retry_policy(max_attempts: u32, max_operation_elapsed: Option<Duration>, max_total_elapsed: Option<Duration>, backoff: BackoffPolicy) -> Result<RetryPolicy, RetryPolicyError>;

/// Builds a retry policy with `qubit_retry::RetryPolicy::builder()`, setting
/// the attempt limit, both soft elapsed-time budgets and the backoff, then
/// calling `build`.
///
/// Upstream `build` rejects exactly a zero attempt limit (it converts the
/// limit with `NonZeroU32::new`); every other combination is accepted. The
/// builder only stores its settings, so the result is the named value for
/// them; the limits retained inside the opaque policy are not stated.
#[verifier::external_body]
pub(crate) fn validated_retry_policy(
    max_attempts: u32,
    max_operation_elapsed: Option<Duration>,
    max_total_elapsed: Option<Duration>,
    backoff: BackoffPolicy,
) -> (r: Result<RetryPolicy, RetryPolicyError>)
    ensures
        r == built_retry_policy(max_attempts, max_operation_elapsed, max_total_elapsed, backoff),
        r is Ok <==> max_attempts > 0,
{
    RetryPolicy::builder()
        .max_attempts(max_attempts)
        .operation_time_budget_opt(max_operation_elapsed)
        .total_time_budget_opt(max_total_elapsed)
        .backoff(backoff)
        .build()
}

/// What the `Display` of `qubit_retry::RetryPolicyError` writes: the invalid
/// field, `": "`, then the validation message.
pub uninterp spec fn policy_error_text(error: RetryPolicyError) -> Seq<char>;

/// Describes a policy error with `ToString::to_string`, through its
/// `Display`. That impl writes `"{field}: {message}"`, so the text always
/// holds the separator and is never empty; the field and message are opaque
/// here, so no more is stated.
#[verifier::external_body]
pub(crate) fn policy_error_message(error: &RetryPolicyError) -> (r: String)
    ensures
        r@ == policy_error_text(*error),
        r@.len() > 0,
{
    error.to_string()
}

} // verus!
