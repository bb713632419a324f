//! CAS lifecycle events and their context.

mod context;
mod listener;

pub use context::CasContext;
pub use context::CasContextView;
pub use listener::CasListenerFailure;
pub use listener::CasListenerKind;

mod event;

pub use event::CasEvent;
