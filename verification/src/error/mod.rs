//! CAS error types.

mod kinds;

pub use kinds::CasAttemptFailureKind;
pub use kinds::CasDiagnosticKind;
pub use kinds::CasErrorKind;
pub use kinds::CasLimitKind;
pub use kinds::CasTermination;
pub use kinds::CasTimeoutScope;

mod attempt_failure;

pub use attempt_failure::attempt_failure_message;
pub use attempt_failure::describes_attempt_failure;
pub use attempt_failure::failure_cloned;
pub use attempt_failure::CasAttemptFailure;

mod diagnostic;

pub use diagnostic::CasBuildError;
pub use diagnostic::CasDiagnostic;

mod cas_error;
mod retry_terminal;

pub use cas_error::completion_clauses;
pub use cas_error::diagnostic_kind_of;
pub use cas_error::error_headline;
pub use cas_error::error_message;
pub use cas_error::error_kind_of;
pub use cas_error::error_cloned;
pub use cas_error::retained_cloned;
pub use cas_error::retained_failure;
pub use cas_error::termination_of;
pub use cas_error::CasError;
pub use retry_terminal::RetryAttemptFailure;
pub use retry_terminal::RetryStop;
pub use retry_terminal::RetryStopReason;

mod retry_failure;

pub use retry_failure::describes_retry_failure;
pub use retry_failure::displays_after;
pub use retry_failure::CasRetryFailure;
