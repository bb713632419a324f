//! Listener panics captured without changing the CAS business outcome.
use vstd::prelude::*;


verus! {

/// Location at which an observation listener failed.
#[derive(Debug, Clone, Copy, PartialEq, Eq, Hash, Structural)]
#[non_exhaustive]
pub enum CasListenerKind {
    /// Execution-started event listener.
    ExecutionStarted,
    /// Attempt-failed event listener.
    AttemptFailed,
    /// Retry-scheduled event listener.
    RetryScheduled,
    /// Execution-finished event listener.
    ExecutionFinished,
    /// Contention alert listener.
    ContentionAlert,
}

/// Name of a listener location, as its debug form spells it.
pub open spec fn listener_kind_name(kind: CasListenerKind) -> Seq<char> {
    match kind {
        CasListenerKind::ExecutionStarted => "ExecutionStarted"@,
        CasListenerKind::AttemptFailed => "AttemptFailed"@,
        CasListenerKind::RetryScheduled => "RetryScheduled"@,
        CasListenerKind::ExecutionFinished => "ExecutionFinished"@,
        CasListenerKind::ContentionAlert => "ContentionAlert"@,
    }
}

fn kind_name(kind: CasListenerKind) -> (r: &'static str)
    ensures
        r@ == listener_kind_name(kind),
{
    match kind {
        CasListenerKind::ExecutionStarted => "ExecutionStarted",
        CasListenerKind::AttemptFailed => "AttemptFailed",
        CasListenerKind::RetryScheduled => "RetryScheduled",
        CasListenerKind::ExecutionFinished => "ExecutionFinished",
        CasListenerKind::ContentionAlert => "ContentionAlert",
    }
}

/// A listener panic captured without changing CAS business outcome.
#[derive(Debug, PartialEq, Eq)]
pub struct CasListenerFailure {
    kind: CasListenerKind,
    message: String,
}

impl CasListenerFailure {
    /// Lifecycle stage at which the listener panicked.
    pub closed spec fn spec_kind(&self) -> CasListenerKind {
        self.kind
    }

    /// Retained panic text.
    pub closed spec fn spec_message(&self) -> Seq<char> {
        self.message@
    }

    /// Records the listener stage and the panic text recovered from its
    /// payload.
    pub fn new(kind: CasListenerKind, message: String) -> (r: Self)
        ensures
            r.spec_kind() == kind,
            r.spec_message() == message@,
    {
        CasListenerFailure { kind, message }
    }

    /// Returns the listener location.
    pub fn kind(&self) -> (r: CasListenerKind)
        ensures
            r == self.spec_kind(),
    {
        self.kind
    }

    /// Returns the panic message.
    pub fn message(&self) -> (r: &str)
        ensures
            r@ == self.spec_message(),
    {
        self.message.as_str()
    }

    /// Describes the listener stage and the retained panic text.
    #[allow(clippy::inherent_to_string)]
    pub fn to_string(&self) -> (r: String)
        ensures
            r@ == "CAS "@ + listener_kind_name(self.spec_kind()) + " listener failed: "@ + self.spec_message(),
    {
        let mut text = String::new();
        text.append("CAS ");
        text.append(kind_name(self.kind));
        text.append(" listener failed: ");
        text.append(self.message.as_str());
        text
    }
}

impl Clone for CasListenerFailure {
    fn clone(&self) -> (r: Self)
        ensures
            r == *self,
    {
        CasListenerFailure { kind: self.kind, message: self.message.clone() }
    }
}

} // verus!
