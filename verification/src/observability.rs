//! Observability modes and listener panic policies.
use vstd::prelude::*;

verus! {

/// Observability mode used by the executor.
#[derive(Debug, Clone, Copy, PartialEq, Eq, Structural)]
pub enum CasObservabilityMode {
    /// Produce only the final execution report.
    ReportOnly,
    /// Emit lifecycle events to registered listeners.
    EventStream,
    /// Emit lifecycle events and contention alerts.
    EventStreamWithAlert,
}

impl Default for CasObservabilityMode {
    /// Returns the lowest-overhead mode, [`CasObservabilityMode::ReportOnly`].
    fn default() -> (r: Self)
        ensures
            r == CasObservabilityMode::ReportOnly,
    {
        CasObservabilityMode::ReportOnly
    }
}

/// Policy for panics raised by event or alert listeners.
///
/// [`Self::Propagate`] exposes a listener panic to the boundary that owns the
/// listener invocation; [`Self::Isolate`] catches listener panics at dispatch
/// so the CAS flow can continue.
#[derive(Debug, Clone, Copy, PartialEq, Eq, Structural)]
pub enum ListenerPanicPolicy {
    /// Exposes a listener panic to its owning execution boundary.
    Propagate,
    /// Listener panics are isolated so the CAS flow can continue.
    Isolate,
}

impl Default for ListenerPanicPolicy {
    /// Returns [`ListenerPanicPolicy::Propagate`].
    fn default() -> (r: Self)
        ensures
            r == ListenerPanicPolicy::Propagate,
    {
        ListenerPanicPolicy::Propagate
    }
}

} // verus!
