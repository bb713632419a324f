//! CAS execution: attempt decisions, terminal finalization, configuration.

mod attempt;
mod shared_state;

pub use attempt::apply_decision;
pub use attempt::decision_applied;
pub use attempt::publish_update;
pub use attempt::published;
pub use attempt::run_attempt;
pub use attempt::AttemptResult;
pub use attempt::AttemptSuccess;

mod finalization;

pub use finalization::enrich_success;
pub use finalization::enriched;
pub use finalization::error_outcome;
pub use finalization::error_outcome_of;
pub use finalization::finish_context_of;
pub use finalization::finish_execution;
pub use finalization::observed_failure_kind;
pub use finalization::observed_kind_of;
pub use finalization::public_result_of;
pub use finalization::retry_decision;
pub use finalization::success_outcome;
pub use finalization::success_outcome_of;
pub use finalization::verdict_for;
pub use finalization::CasReportFinishContext;
pub use finalization::CasTerminal;
pub use finalization::RetryVerdict;

mod config;
mod retry_policy;

pub use retry_policy::built_retry_policy;
pub use retry_policy::delay_at_most;
pub use retry_policy::fixed_backoff;
pub use retry_policy::policy_error_text;
pub use retry_policy::uniform_backoff;
pub use retry_policy::waits_no_delay;

pub use config::attempts_for_retries;
pub use config::installs_no_delay;
pub use config::CasBuilder;
pub use config::CasBuilderView;
pub use config::CasExecutor;
pub use config::CasExecutorView;
