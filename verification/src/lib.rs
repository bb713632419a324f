//! Typed compare-and-swap executor for synchronous and asynchronous workflows.
//!
//! `CasExecutor<T, E>` binds the shared state type `T` and operation error
//! type `E`. Each execution introduces its own business output type `R`, so
//! one executor configuration can serve multiple CAS operations over the same
//! state.

mod clock;
pub mod constants;
mod decision;
pub mod error;
pub mod event;
pub mod executor;
pub mod fast;
pub mod laws;
pub mod options;
pub mod report;
pub mod observability;
mod outcome;
mod success;
mod text;

pub use decision::CasDecision;
pub use error::CasAttemptFailure;
pub use error::CasAttemptFailureKind;
pub use error::CasError;
pub use error::CasErrorKind;
pub use event::CasContext;
pub use success::CasSuccess;
pub use report::CasExecutionOutcome;
pub use report::CasExecutionReport;
pub use fast::FastCasSuccess;
pub use outcome::CasOutcome;
pub use outcome::result_cloned;
pub use success::success_cloned;
pub use event::CasEvent;
pub use event::CasListenerFailure;
pub use event::CasListenerKind;
pub use observability::CasObservabilityMode;
pub use observability::ListenerPanicPolicy;
pub use options::CasTimeoutPolicy;
pub use executor::CasBuilder;
pub use executor::CasExecutor;
pub use error::CasBuildError;
pub use error::CasDiagnostic;
pub use error::CasDiagnosticKind;
pub use error::CasLimitKind;
pub use error::CasTermination;
pub use error::CasTimeoutScope;
pub use error::CasRetryFailure;
pub use clock::elapsed_between;
pub use clock::not_after;
