//! Validated CAS executor configuration and its builder.
use std::marker::PhantomData;
use std::time::Duration;

use qubit_retry::BackoffPolicy;
use qubit_retry::RetryPolicy;
use qubit_retry::RetryPolicyError;
use vstd::prelude::*;

use super::retry_policy::built_retry_policy;
use super::retry_policy::delay_at_most;
use super::retry_policy::fixed_backoff;
use super::retry_policy::policy_error_message;
use super::retry_policy::policy_error_text;
use super::retry_policy::uniform_backoff;
use super::retry_policy::validated_retry_policy;
use super::retry_policy::waits_no_delay;
use crate::constants::DEFAULT_CAS_MAX_ATTEMPTS;
use crate::error::CasBuildError;
use crate::options::AttemptTimeoutAction;

verus! {

/// Plain snapshot of the settings of a [`CasBuilder`].
pub struct CasBuilderView {
    /// Maximum total attempts, including the initial operation.
    pub max_attempts: u32,
    /// Optional cumulative operation-time continuation budget.
    pub max_operation_elapsed: Option<Duration>,
    /// Optional end-to-end continuation budget.
    pub max_total_elapsed: Option<Duration>,
    /// Optional hard wall-clock timeout for asynchronous retry flows.
    pub flow_timeout: Option<Duration>,
    /// Validated backoff policy or its deferred construction error.
    pub backoff: Result<BackoffPolicy, RetryPolicyError>,
    /// Optional hard timeout applied to each async attempt.
    pub attempt_timeout: Option<Duration>,
    /// Action selected after a configured attempt timeout.
    pub attempt_timeout_action: AttemptTimeoutAction,
}

/// Plain snapshot of the settings of a [`CasExecutor`].
pub struct CasExecutorView {
    /// Maximum admitted attempts, including the first.
    pub max_attempts: u32,
    /// Soft budget for accumulated attempt execution time.
    pub max_operation_elapsed: Option<Duration>,
    /// Soft total-time budget, including backoff.
    pub max_total_elapsed: Option<Duration>,
    /// Cooperative timeout for each asynchronous attempt.
    pub attempt_timeout: Option<Duration>,
    /// Cooperative deadline for asynchronous attempts and backoff.
    pub flow_timeout: Option<Duration>,
    /// Action selected after a configured attempt timeout.
    pub attempt_timeout_action: AttemptTimeoutAction,
    /// Validated retry policy run by the execution front-ends.
    pub policy: RetryPolicy,
}

/// Whether `after` is `before` with immediate retries installed: the backoff
/// is a valid no-delay policy, whatever was set before, and every other
/// setting is kept.
pub open spec fn installs_no_delay(before: CasBuilderView, after: CasBuilderView) -> bool {
    &&& after == (CasBuilderView { backoff: after.backoff, ..before })
    &&& after.backoff matches Ok(policy) && waits_no_delay(policy)
}

/// Attempt limit after allowing `max_retries` retries: one more than the
/// retries, saturating at `u32::MAX`.
pub open spec fn attempts_for_retries(max_retries: u32) -> u32 {
    if max_retries == u32::MAX {
        u32::MAX
    } else {
        (max_retries + 1) as u32
    }
}

/// Executor for retry-aware compare-and-swap workflows.
#[derive(Debug)]
pub struct CasExecutor<T, E> {
    policy: RetryPolicy,
    max_attempts: u32,
    max_operation_elapsed: Option<Duration>,
    max_total_elapsed: Option<Duration>,
    attempt_timeout: Option<Duration>,
    flow_timeout: Option<Duration>,
    attempt_timeout_action: AttemptTimeoutAction,
    marker: PhantomData<(T, E)>,
}

impl<T, E> View for CasExecutor<T, E> {
    type V = CasExecutorView;

    closed spec fn view(&self) -> CasExecutorView {
        CasExecutorView {
            max_attempts: self.max_attempts,
            max_operation_elapsed: self.max_operation_elapsed,
            max_total_elapsed: self.max_total_elapsed,
            attempt_timeout: self.attempt_timeout,
            flow_timeout: self.flow_timeout,
            attempt_timeout_action: self.attempt_timeout_action,
            policy: self.policy,
        }
    }
}

impl<T, E> Clone for CasExecutor<T, E> {
    /// Shares the validated configuration without cloning application data.
    fn clone(&self) -> (r: Self)
        ensures
            r@ == self@,
    {
        proof {
            use_type_invariant(self);
        }
        CasExecutor {
            policy: self.policy.clone(),
            max_attempts: self.max_attempts,
            max_operation_elapsed: self.max_operation_elapsed,
            max_total_elapsed: self.max_total_elapsed,
            attempt_timeout: self.attempt_timeout,
            flow_timeout: self.flow_timeout,
            attempt_timeout_action: self.attempt_timeout_action,
            marker: PhantomData,
        }
    }
}

impl<T, E> CasExecutor<T, E> {
    #[verifier::type_invariant]
    spec fn admits_an_attempt(&self) -> bool {
        self.max_attempts > 0
    }

    /// Creates a CAS builder with the default settings.
    pub fn builder() -> (r: CasBuilder<T, E>)
        ensures
            r@ == CasBuilder::<T, E>::default_view(r@.backoff),
            r@.backoff matches Ok(policy) && waits_no_delay(policy),
    {
        CasBuilder::new()
    }

    /// Returns the maximum number of admitted attempts, including the first.
    pub fn max_attempts(&self) -> (r: u32)
        ensures
            r == self@.max_attempts,
            r > 0,
    {
        proof {
            use_type_invariant(self);
        }
        self.max_attempts
    }

    /// Returns the maximum number of retries after the first attempt.
    pub fn max_retries(&self) -> (r: u32)
        ensures
            r == self@.max_attempts - 1,
    {
        proof {
            use_type_invariant(self);
        }
        self.max_attempts.saturating_sub(1)
    }

    /// Returns the soft budget for accumulated attempt execution time.
    pub fn max_operation_elapsed(&self) -> (r: Option<Duration>)
        ensures
            r == self@.max_operation_elapsed,
    {
        self.max_operation_elapsed
    }

    /// Returns the soft total-time budget, including backoff.
    pub fn max_total_elapsed(&self) -> (r: Option<Duration>)
        ensures
            r == self@.max_total_elapsed,
    {
        self.max_total_elapsed
    }

    /// Returns the cooperative timeout for each asynchronous attempt.
    pub fn attempt_timeout(&self) -> (r: Option<Duration>)
        ensures
            r == self@.attempt_timeout,
    {
        self.attempt_timeout
    }

    /// Returns the cooperative deadline for asynchronous attempts and backoff.
    pub fn flow_timeout(&self) -> (r: Option<Duration>)
        ensures
            r == self@.flow_timeout,
    {
        self.flow_timeout
    }

    /// Returns the action taken after an asynchronous attempt times out.
    pub fn attempt_timeout_action(&self) -> (r: AttemptTimeoutAction)
        ensures
            r == self@.attempt_timeout_action,
    {
        self.attempt_timeout_action
    }

    /// Returns the validated retry policy that execution front-ends run.
    pub fn retry_policy(&self) -> (r: &RetryPolicy)
        ensures
            *r == self@.policy,
    {
        &self.policy
    }
}

/// Builder for [`CasExecutor`].
#[must_use]
pub struct CasBuilder<T, E> {
    max_attempts: u32,
    max_operation_elapsed: Option<Duration>,
    max_total_elapsed: Option<Duration>,
    flow_timeout: Option<Duration>,
    backoff: Result<BackoffPolicy, RetryPolicyError>,
    attempt_timeout: Option<Duration>,
    attempt_timeout_action: AttemptTimeoutAction,
    marker: PhantomData<(T, E)>,
}

impl<T, E> View for CasBuilder<T, E> {
    type V = CasBuilderView;

    closed spec fn view(&self) -> CasBuilderView {
        CasBuilderView {
            max_attempts: self.max_attempts,
            max_operation_elapsed: self.max_operation_elapsed,
            max_total_elapsed: self.max_total_elapsed,
            flow_timeout: self.flow_timeout,
            backoff: self.backoff,
            attempt_timeout: self.attempt_timeout,
            attempt_timeout_action: self.attempt_timeout_action,
        }
    }
}

impl<T, E> Default for CasBuilder<T, E> {
    /// Creates a builder equivalent to [`CasBuilder::new`].
    fn default() -> (r: Self)
        ensures
            r@ == Self::default_view(r@.backoff),
            r@.backoff matches Ok(policy) && waits_no_delay(policy),
    {
        Self::new()
    }
}

impl<T, E> CasBuilder<T, E> {
    /// Default settings: the CAS default attempt limit, no budgets, no
    /// timeouts, abort on attempt timeout, and the given backoff.
    pub open spec fn default_view(backoff: Result<BackoffPolicy, RetryPolicyError>) -> CasBuilderView {
        CasBuilderView {
            max_attempts: DEFAULT_CAS_MAX_ATTEMPTS,
            max_operation_elapsed: None,
            max_total_elapsed: None,
            flow_timeout: None,
            backoff,
            attempt_timeout: None,
            attempt_timeout_action: AttemptTimeoutAction::Abort,
        }
    }

    /// Creates a builder with immediate retries and the CAS default limit.
    pub fn new() -> (r: Self)
        ensures
            r@ == Self::default_view(r@.backoff),
            r@.backoff matches Ok(policy) && waits_no_delay(policy),
    {
        CasBuilder {
            max_attempts: DEFAULT_CAS_MAX_ATTEMPTS,
            max_operation_elapsed: None,
            max_total_elapsed: None,
            flow_timeout: None,
            backoff: Ok(BackoffPolicy::immediate()),
            attempt_timeout: None,
            attempt_timeout_action: AttemptTimeoutAction::Abort,
            marker: PhantomData,
        }
    }

    /// Sets the maximum total attempts, including the initial attempt.
    pub fn max_attempts(self, max_attempts: u32) -> (r: Self)
        ensures
            r@ == (CasBuilderView { max_attempts, ..self@ }),
    {
        CasBuilder { max_attempts, ..self }
    }

    /// Sets the maximum retries after the initial attempt; the attempt limit
    /// becomes one more, saturating at `u32::MAX`.
    pub fn max_retries(self, max_retries: u32) -> (r: Self)
        ensures
            r@ == (CasBuilderView { max_attempts: attempts_for_retries(max_retries), ..self@ }),
    {
        self.max_attempts(max_retries.saturating_add(1))
    }

    /// Sets the soft budget for cumulative operation and CAS adapter work.
    pub fn max_operation_elapsed(self, max_operation_elapsed: Option<Duration>) -> (r: Self)
        ensures
            r@ == (CasBuilderView { max_operation_elapsed, ..self@ }),
    {
        CasBuilder { max_operation_elapsed, ..self }
    }

    /// Sets the soft monotonic elapsed-time budget for the whole retry flow.
    pub fn max_total_elapsed(self, max_total_elapsed: Option<Duration>) -> (r: Self)
        ensures
            r@ == (CasBuilderView { max_total_elapsed, ..self@ }),
    {
        CasBuilder { max_total_elapsed, ..self }
    }

    /// Sets the hard wall-clock timeout for asynchronous retry flows.
    pub fn flow_timeout(self, flow_timeout: Option<Duration>) -> (r: Self)
        ensures
            r@ == (CasBuilderView { flow_timeout, ..self@ }),
    {
        CasBuilder { flow_timeout, ..self }
    }

    /// Replaces the backoff setting, including a deferred construction error.
    pub fn with_backoff(self, backoff: Result<BackoffPolicy, RetryPolicyError>) -> (r: Self)
        ensures
            r@ == (CasBuilderView { backoff, ..self@ }),
    {
        CasBuilder { backoff, ..self }
    }

    /// Returns the backoff setting or its deferred construction error.
    pub fn backoff(&self) -> (r: &Result<BackoffPolicy, RetryPolicyError>)
        ensures
            *r == self@.backoff,
    {
        &self.backoff
    }

    /// Uses immediate retries with no sleep.
    pub fn no_delay(self) -> (r: Self)
        ensures
            installs_no_delay(self@, r@),
    {
        self.with_backoff(Ok(BackoffPolicy::immediate()))
    }

    /// Uses one fixed retry delay.
    pub fn fixed_delay(self, delay: Duration) -> (r: Self)
        ensures
            r@ == (CasBuilderView { backoff: Ok(fixed_backoff(delay)), ..self@ }),
    {
        self.with_backoff(Ok(BackoffPolicy::fixed(delay)))
    }

    /// Uses one uniformly random retry delay in `[min, max]`; reversed bounds
    /// are reported when the executor is built.
    pub fn random_delay(self, min: Duration, max: Duration) -> (r: Self)
        ensures
            r@ == (CasBuilderView { backoff: uniform_backoff(min, max), ..self@ }),
            r@.backoff is Ok <==> delay_at_most(min, max),
    {
        self.with_backoff(BackoffPolicy::uniform(min, max))
    }

    /// Sets the async per-attempt timeout.
    pub fn attempt_timeout(self, attempt_timeout: Option<Duration>) -> (r: Self)
        ensures
            r@ == (CasBuilderView { attempt_timeout, ..self@ }),
    {
        CasBuilder { attempt_timeout, ..self }
    }

    /// Retries attempts that exceed the configured timeout.
    pub fn retry_on_timeout(self) -> (r: Self)
        ensures
            r@ == (CasBuilderView { attempt_timeout_action: AttemptTimeoutAction::Retry, ..self@ }),
    {
        CasBuilder { attempt_timeout_action: AttemptTimeoutAction::Retry, ..self }
    }

    /// Aborts the CAS flow when one attempt exceeds the timeout.
    pub fn abort_on_timeout(self) -> (r: Self)
        ensures
            r@ == (CasBuilderView { attempt_timeout_action: AttemptTimeoutAction::Abort, ..self@ }),
    {
        CasBuilder { attempt_timeout_action: AttemptTimeoutAction::Abort, ..self }
    }

    /// Builds one executor after validating the settings.
    ///
    /// Fails with a `retry_policy` build error when the backoff setting holds
    /// a deferred construction error or the attempt limit is zero.
    pub fn build(self) -> (r: Result<CasExecutor<T, E>, CasBuildError>)
        ensures
            r is Ok <==> (self@.backoff is Ok && self@.max_attempts > 0),
            r matches Ok(executor) ==> executor@ == (CasExecutorView {
                max_attempts: self@.max_attempts,
                max_operation_elapsed: self@.max_operation_elapsed,
                max_total_elapsed: self@.max_total_elapsed,
                attempt_timeout: self@.attempt_timeout,
                flow_timeout: self@.flow_timeout,
                attempt_timeout_action: self@.attempt_timeout_action,
                policy: built_retry_policy(
                    self@.max_attempts,
                    self@.max_operation_elapsed,
                    self@.max_total_elapsed,
                    self@.backoff->Ok_0,
                )->Ok_0,
            }),
            r matches Err(error) ==> {
                &&& error.spec_field() == "retry_policy"
                &&& error.spec_message() == policy_error_text(
                    match self@.backoff {
                        Err(e) => e,
                        Ok(backoff) => built_retry_policy(
                            self@.max_attempts,
                            self@.max_operation_elapsed,
                            self@.max_total_elapsed,
                            backoff,
                        )->Err_0,
                    },
                )
                &&& error.spec_message().len() > 0
            },
    {
        let backoff = match self.backoff {
            Ok(backoff) => backoff,
            Err(error) => {
                return Err(CasBuildError::new("retry_policy", policy_error_message(&error)));
            },
        };
        let policy = match validated_retry_policy(
            self.max_attempts,
            self.max_operation_elapsed,
            self.max_total_elapsed,
            backoff,
        ) {
            Ok(policy) => policy,
            Err(error) => {
                return Err(CasBuildError::new("retry_policy", policy_error_message(&error)));
            },
        };
        Ok(
            CasExecutor {
                policy,
                max_attempts: self.max_attempts,
                max_operation_elapsed: self.max_operation_elapsed,
                max_total_elapsed: self.max_total_elapsed,
                attempt_timeout: self.attempt_timeout,
                flow_timeout: self.flow_timeout,
                attempt_timeout_action: self.attempt_timeout_action,
                marker: PhantomData,
            },
        )
    }
}

} // verus!
