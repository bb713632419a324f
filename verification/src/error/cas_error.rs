//! Terminal CAS errors.
use std::sync::Arc;

use vstd::prelude::*;

use super::attempt_failure::CasAttemptFailure;
use super::diagnostic::CasDiagnostic;
use super::kinds::CasDiagnosticKind;
use super::kinds::CasErrorKind;
use super::kinds::CasLimitKind;
use super::kinds::CasTermination;
use super::kinds::CasTimeoutScope;
use super::retry_terminal::RetryAttemptFailure;
use super::retry_terminal::RetryStop;
use super::retry_terminal::RetryStopReason;
use super::attempt_failure::describes_attempt_failure;
use super::attempt_failure::failure_cloned;
use crate::event::CasContext;
use crate::text::append_decimal;
use crate::text::decimal;

verus! {

/// CAS stopping reason for a retry-layer reason; every reason that is not an
/// abort, an exhausted limit or a hard timeout is an infrastructure stop.
pub open spec fn termination_of(reason: RetryStopReason) -> CasTermination {
    match reason {
        RetryStopReason::Aborted => CasTermination::Aborted,
        RetryStopReason::Exhausted(limit) => CasTermination::LimitExceeded(limit),
        RetryStopReason::TimedOut(scope) => CasTermination::TimedOut(scope),
        _ => CasTermination::RetryInfrastructure,
    }
}

/// Diagnostic category retained for a retry-layer reason; ordinary abort,
/// exhaustion and timeout stops retain none.
pub open spec fn diagnostic_kind_of(reason: RetryStopReason) -> Option<CasDiagnosticKind> {
    match reason {
        RetryStopReason::Aborted => None,
        RetryStopReason::Exhausted(_) => None,
        RetryStopReason::TimedOut(_) => None,
        RetryStopReason::Cancelled => Some(CasDiagnosticKind::Cancellation),
        RetryStopReason::CallbackFailed => Some(CasDiagnosticKind::Callback),
        RetryStopReason::ClockFailure => Some(CasDiagnosticKind::Clock),
        RetryStopReason::TimerFailure => Some(CasDiagnosticKind::Timer),
        RetryStopReason::InfrastructureFailure => Some(CasDiagnosticKind::Infrastructure),
        RetryStopReason::Unrecognized => Some(CasDiagnosticKind::UnknownRetryReason),
    }
}

/// Application failure retained from the last retry-layer attempt failure:
/// application failures are kept, a timed-out attempt keeps the snapshot it
/// used when one is known, and panics keep nothing.
pub open spec fn retained_failure<T, E>(
    failure: Option<RetryAttemptFailure<CasAttemptFailure<T, E>>>,
    timeout_current: Option<Arc<T>>,
) -> Option<CasAttemptFailure<T, E>> {
    match failure {
        Some(RetryAttemptFailure::Error(f)) => Some(f),
        Some(RetryAttemptFailure::TimedOut(_)) => match timeout_current {
            Some(current) => Some(CasAttemptFailure::Timeout { current }),
            None => None,
        },
        _ => None,
    }
}

/// Public error category: the stopping reason decides, and the last failure
/// refines an abort into an attempt timeout and attempt exhaustion into
/// conflict exhaustion, attempt timeout or retry exhaustion.
pub open spec fn error_kind_of<T, E>(
    termination: CasTermination,
    last_failure: Option<CasAttemptFailure<T, E>>,
) -> CasErrorKind {
    match termination {
        CasTermination::Aborted => match last_failure {
            Some(CasAttemptFailure::Timeout { .. }) => CasErrorKind::AttemptTimeout,
            _ => CasErrorKind::Abort,
        },
        CasTermination::LimitExceeded(CasLimitKind::Attempts) => match last_failure {
            Some(CasAttemptFailure::Conflict { .. }) => CasErrorKind::ConflictExhausted,
            Some(CasAttemptFailure::Timeout { .. }) => CasErrorKind::AttemptTimeout,
            _ => CasErrorKind::RetryExhausted,
        },
        CasTermination::LimitExceeded(CasLimitKind::OperationElapsed) => CasErrorKind::OperationBudgetExceeded,
        CasTermination::LimitExceeded(CasLimitKind::TotalElapsed) => CasErrorKind::TotalBudgetExceeded,
        CasTermination::TimedOut(CasTimeoutScope::Attempt) => CasErrorKind::AttemptTimeout,
        CasTermination::TimedOut(CasTimeoutScope::Flow) => CasErrorKind::FlowTimeout,
        CasTermination::RetryInfrastructure => CasErrorKind::RetryInfrastructure,
    }
}

/// Leading phrase of the message of an error of `kind`.
pub open spec fn error_headline(kind: CasErrorKind) -> Seq<char> {
    match kind {
        CasErrorKind::Abort => "CAS aborted"@,
        CasErrorKind::ConflictExhausted => "CAS conflicts exhausted"@,
        CasErrorKind::RetryExhausted => "CAS retryable failures exhausted"@,
        CasErrorKind::AttemptTimeout => "CAS attempt timed out"@,
        CasErrorKind::FlowTimeout => "CAS flow timed out"@,
        CasErrorKind::RetryInfrastructure => "CAS retry infrastructure failed"@,
        CasErrorKind::OperationBudgetExceeded => "CAS operation budget exceeded"@,
        CasErrorKind::TotalBudgetExceeded => "CAS total budget exceeded"@,
    }
}

fn headline(kind: CasErrorKind) -> (r: &'static str)
    ensures
        r@ == error_headline(kind),
{
    match kind {
        CasErrorKind::Abort => "CAS aborted",
        CasErrorKind::ConflictExhausted => "CAS conflicts exhausted",
        CasErrorKind::RetryExhausted => "CAS retryable failures exhausted",
        CasErrorKind::AttemptTimeout => "CAS attempt timed out",
        CasErrorKind::FlowTimeout => "CAS flow timed out",
        CasErrorKind::RetryInfrastructure => "CAS retry infrastructure failed",
        CasErrorKind::OperationBudgetExceeded => "CAS operation budget exceeded",
        CasErrorKind::TotalBudgetExceeded => "CAS total budget exceeded",
    }
}

/// One `; completion diagnostic: <message>` clause per diagnostic, in order.
pub open spec fn completion_clauses(diagnostics: Seq<CasDiagnostic>) -> Seq<char>
    decreases diagnostics.len(),
{
    if diagnostics.len() == 0 {
        Seq::empty()
    } else {
        completion_clauses(diagnostics.drop_last()) + "; completion diagnostic: "@
            + diagnostics.last().spec_message()
    }
}

/// Message of a terminal error: its headline and attempt count, then the
/// last failure, the infrastructure diagnostic and the completion
/// diagnostics when present.
pub open spec fn error_message(
    kind: CasErrorKind,
    attempts: u32,
    failure_text: Option<Seq<char>>,
    diagnostic: Option<CasDiagnostic>,
    completions: Seq<CasDiagnostic>,
) -> Seq<char> {
    error_headline(kind) + " after "@ + decimal(attempts as nat) + " attempt(s)"@ + match failure_text {
        Some(text) => "; last failure: "@ + text,
        None => Seq::empty(),
    } + match diagnostic {
        Some(d) => "; diagnostic: "@ + d.spec_message(),
        None => Seq::empty(),
    } + completion_clauses(completions)
}

/// Terminal CAS error returned by an execution.
#[derive(Debug)]
pub struct CasError<T, E> {
    kind: CasErrorKind,
    termination: CasTermination,
    context: CasContext,
    diagnostic: Option<CasDiagnostic>,
    completion_diagnostics: Vec<CasDiagnostic>,
    last_failure: Option<CasAttemptFailure<T, E>>,
}

impl<T, E> CasError<T, E> {
    /// Terminal category.
    pub closed spec fn spec_kind(&self) -> CasErrorKind {
        self.kind
    }

    /// Structured stopping reason.
    pub closed spec fn spec_termination(&self) -> CasTermination {
        self.termination
    }

    /// Terminal retry context.
    pub closed spec fn spec_context(&self) -> CasContext {
        self.context
    }

    /// Infrastructure cause, when the stopping reason carries one.
    pub closed spec fn spec_diagnostic(&self) -> Option<CasDiagnostic> {
        self.diagnostic
    }

    /// Callback failures recorded after the terminal result was frozen.
    pub closed spec fn spec_completion_diagnostics(&self) -> Seq<CasDiagnostic> {
        self.completion_diagnostics@
    }

    /// Final failed attempt retained by the error.
    pub closed spec fn spec_last_failure(&self) -> Option<CasAttemptFailure<T, E>> {
        self.last_failure
    }

    /// Projects the retry layer's terminal reason, last attempt failure,
    /// terminal context and completion callback failures onto a CAS error.
    ///
    /// `timeout_current` is the snapshot of the last asynchronous attempt,
    /// used only when that attempt timed out. `completion_failures` holds the
    /// descriptions of callbacks that failed after the result was frozen, in
    /// dispatch order.
    pub fn from_retry_parts(
        stop: RetryStop,
        last_failure: Option<RetryAttemptFailure<CasAttemptFailure<T, E>>>,
        context: CasContext,
        timeout_current: Option<Arc<T>>,
        completion_failures: Vec<String>,
    ) -> (r: Self)
        ensures
            r.spec_termination() == termination_of(stop.reason),
            r.spec_last_failure() == retained_failure(last_failure, timeout_current),
            r.spec_kind() == error_kind_of(
                termination_of(stop.reason),
                retained_failure(last_failure, timeout_current),
            ),
            r.spec_context() == context,
            match diagnostic_kind_of(stop.reason) {
                None => r.spec_diagnostic() is None,
                Some(kind) => r.spec_diagnostic() matches Some(d) && d.spec_kind() == kind
                    && d.spec_message() == stop.message@,
            },
            r.spec_completion_diagnostics().len() == completion_failures@.len(),
            forall|i: int|
                0 <= i < completion_failures@.len() ==> {
                    &&& (#[trigger] r.spec_completion_diagnostics()[i]).spec_kind()
                        == CasDiagnosticKind::Callback
                    &&& r.spec_completion_diagnostics()[i].spec_message()
                        == completion_failures@[i]@
                },
    {
        let termination = Self::classify_termination(stop.reason);
        let diagnostic = Self::reason_diagnostic(stop);
        let completion_diagnostics = Self::callback_diagnostics(completion_failures);
        let retained = Self::map_attempt_failure(last_failure, timeout_current);
        let kind = Self::classify_kind(termination, retained.as_ref());
        CasError { kind, termination, context, diagnostic, completion_diagnostics, last_failure: retained }
    }

    /// Retains details for infrastructure reasons; ordinary CAS termination
    /// has none.
    fn reason_diagnostic(stop: RetryStop) -> (r: Option<CasDiagnostic>)
        ensures
            match diagnostic_kind_of(stop.reason) {
                None => r is None,
                Some(kind) => r matches Some(d) && d.spec_kind() == kind && d.spec_message()
                    == stop.message@,
            },
    {
        let kind = match stop.reason {
            RetryStopReason::Aborted => {
                return None;
            },
            RetryStopReason::Exhausted(_) => {
                return None;
            },
            RetryStopReason::TimedOut(_) => {
                return None;
            },
            RetryStopReason::Cancelled => CasDiagnosticKind::Cancellation,
            RetryStopReason::CallbackFailed => CasDiagnosticKind::Callback,
            RetryStopReason::ClockFailure => CasDiagnosticKind::Clock,
            RetryStopReason::TimerFailure => CasDiagnosticKind::Timer,
            RetryStopReason::InfrastructureFailure => CasDiagnosticKind::Infrastructure,
            RetryStopReason::Unrecognized => CasDiagnosticKind::UnknownRetryReason,
        };
        Some(CasDiagnostic::new(kind, stop.message))
    }

    /// Wraps each completion callback description as a callback diagnostic,
    /// keeping dispatch order.
    fn callback_diagnostics(messages: Vec<String>) -> (r: Vec<CasDiagnostic>)
        ensures
            r@.len() == messages@.len(),
            forall|i: int|
                0 <= i < messages@.len() ==> {
                    &&& (#[trigger] r@[i]).spec_kind() == CasDiagnosticKind::Callback
                    &&& r@[i].spec_message() == messages@[i]@
                },
    {
        let mut out: Vec<CasDiagnostic> = Vec::new();
        let n = messages.len();
        let mut i: usize = 0;
        while i < n
            invariant
                n == messages@.len(),
                i <= n,
                out@.len() == i,
                forall|j: int|
                    0 <= j < i ==> {
                        &&& (#[trigger] out@[j]).spec_kind() == CasDiagnosticKind::Callback
                        &&& out@[j].spec_message() == messages@[j]@
                    },
            decreases n - i,
        {
            let message = messages[i].clone();
            out.push(CasDiagnostic::new(CasDiagnosticKind::Callback, message));
            i = i + 1;
        }
        out
    }

    /// Retains application failures or the original snapshot of a timed-out
    /// attempt.
    fn map_attempt_failure(
        failure: Option<RetryAttemptFailure<CasAttemptFailure<T, E>>>,
        timeout_current: Option<Arc<T>>,
    ) -> (r: Option<CasAttemptFailure<T, E>>)
        ensures
            r == retained_failure(failure, timeout_current),
    {
        match failure {
            Some(RetryAttemptFailure::Error(f)) => Some(f),
            Some(RetryAttemptFailure::TimedOut(_)) => match timeout_current {
                Some(current) => Some(CasAttemptFailure::timeout(current)),
                None => None,
            },
            Some(RetryAttemptFailure::Panicked) => None,
            Some(RetryAttemptFailure::Unrecognized) => None,
            None => None,
        }
    }

    /// Classifies the terminal reason independently of the last application
    /// error.
    fn classify_termination(reason: RetryStopReason) -> (r: CasTermination)
        ensures
            r == termination_of(reason),
    {
        match reason {
            RetryStopReason::Aborted => CasTermination::Aborted,
            RetryStopReason::Exhausted(limit) => CasTermination::LimitExceeded(limit),
            RetryStopReason::TimedOut(scope) => CasTermination::TimedOut(scope),
            RetryStopReason::Cancelled => CasTermination::RetryInfrastructure,
            RetryStopReason::CallbackFailed => CasTermination::RetryInfrastructure,
            RetryStopReason::ClockFailure => CasTermination::RetryInfrastructure,
            RetryStopReason::TimerFailure => CasTermination::RetryInfrastructure,
            RetryStopReason::InfrastructureFailure => CasTermination::RetryInfrastructure,
            RetryStopReason::Unrecognized => CasTermination::RetryInfrastructure,
        }
    }

    /// Projects terminal precedence onto the compact public error category.
    pub fn classify_kind(
        termination: CasTermination,
        last_failure: Option<&CasAttemptFailure<T, E>>,
    ) -> (r: CasErrorKind)
        ensures
            r == error_kind_of(
                termination,
                match last_failure {
                    Some(f) => Some(*f),
                    None => None,
                },
            ),
    {
        match termination {
            CasTermination::Aborted => match last_failure {
                Some(CasAttemptFailure::Timeout { .. }) => CasErrorKind::AttemptTimeout,
                _ => CasErrorKind::Abort,
            },
            CasTermination::LimitExceeded(CasLimitKind::Attempts) => match last_failure {
                Some(CasAttemptFailure::Conflict { .. }) => CasErrorKind::ConflictExhausted,
                Some(CasAttemptFailure::Timeout { .. }) => CasErrorKind::AttemptTimeout,
                _ => CasErrorKind::RetryExhausted,
            },
            CasTermination::LimitExceeded(CasLimitKind::OperationElapsed) => CasErrorKind::OperationBudgetExceeded,
            CasTermination::LimitExceeded(CasLimitKind::TotalElapsed) => CasErrorKind::TotalBudgetExceeded,
            CasTermination::TimedOut(CasTimeoutScope::Attempt) => CasErrorKind::AttemptTimeout,
            CasTermination::TimedOut(CasTimeoutScope::Flow) => CasErrorKind::FlowTimeout,
            CasTermination::RetryInfrastructure => CasErrorKind::RetryInfrastructure,
        }
    }

    /// Returns infrastructure details, or `None` for ordinary CAS termination.
    pub fn diagnostic(&self) -> (r: Option<&CasDiagnostic>)
        ensures
            r matches Some(d) ==> self.spec_diagnostic() == Some(*d),
            r is None <==> self.spec_diagnostic() is None,
    {
        self.diagnostic.as_ref()
    }

    /// Returns callback failures recorded after the terminal result was
    /// frozen; an empty slice means no completion callback failed.
    pub fn completion_diagnostics(&self) -> (r: &[CasDiagnostic])
        ensures
            r@ == self.spec_completion_diagnostics(),
    {
        self.completion_diagnostics.as_slice()
    }

    /// Returns the high-level CAS error kind.
    pub fn kind(&self) -> (r: CasErrorKind)
        ensures
            r == self.spec_kind(),
    {
        self.kind
    }

    /// Returns the structured CAS terminal reason.
    pub fn termination(&self) -> (r: CasTermination)
        ensures
            r == self.spec_termination(),
    {
        self.termination
    }

    /// Returns the terminal CAS context.
    pub fn context(&self) -> (r: CasContext)
        ensures
            r == self.spec_context(),
    {
        self.context
    }

    /// Returns the number of attempts that were executed.
    pub fn attempts(&self) -> (r: u32)
        ensures
            r == self.spec_context()@.attempts,
    {
        self.context.attempts()
    }

    /// Returns the final attempt failure, or `None` before an attempt or when
    /// infrastructure termination left no retainable application failure.
    pub fn last_failure(&self) -> (r: Option<&CasAttemptFailure<T, E>>)
        ensures
            r matches Some(f) ==> self.spec_last_failure() == Some(*f),
            r is None <==> self.spec_last_failure() is None,
    {
        self.last_failure.as_ref()
    }

    /// Returns the retained failure snapshot without reloading shared state.
    pub fn current(&self) -> (r: Option<&Arc<T>>)
        ensures
            r matches Some(c) ==> (self.spec_last_failure() matches Some(f) && f.spec_current()
                == *c),
            r is None <==> self.spec_last_failure() is None,
    {
        match &self.last_failure {
            Some(f) => Some(f.current()),
            None => None,
        }
    }

    /// Returns the business error for Retry/Abort failures, or `None` for a
    /// conflict, a timeout, or an execution without a retained failure.
    pub fn error(&self) -> (r: Option<&E>)
        ensures
            r matches Some(e) ==> (self.spec_last_failure() matches Some(f) && f.spec_error()
                == Some(*e)),
            r is None <==> (self.spec_last_failure() matches Some(f) ==> f.spec_error() is None),
    {
        match &self.last_failure {
            Some(f) => f.error(),
            None => None,
        }
    }

    /// Describes the terminal classification, the attempt count, the last
    /// failure and the retained diagnostics.
    #[allow(clippy::inherent_to_string)]
    pub fn to_string(&self) -> (r: String)
        where
            E: std::fmt::Display,
        ensures
            match self.spec_last_failure() {
                None => r@ == error_message(
                    self.spec_kind(),
                    self.spec_context()@.attempts,
                    None,
                    self.spec_diagnostic(),
                    self.spec_completion_diagnostics(),
                ),
                Some(failure) => exists|text: Seq<char>|
                    #[trigger] describes_attempt_failure(failure, text) && r@ == error_message(
                        self.spec_kind(),
                        self.spec_context()@.attempts,
                        Some(text),
                        self.spec_diagnostic(),
                        self.spec_completion_diagnostics(),
                    ),
            },
    {
        let mut text = String::new();
        text.append(headline(self.kind));
        text.append(" after ");
        append_decimal(&mut text, self.context.attempts());
        text.append(" attempt(s)");
        let ghost head = text@;
        let ghost mut failure_text: Option<Seq<char>> = None;
        match &self.last_failure {
            Some(failure) => {
                let shown = failure.to_string();
                text.append("; last failure: ");
                text.append(shown.as_str());
                proof {
                    failure_text = Some(shown@);
                    assert(describes_attempt_failure(self.spec_last_failure().unwrap(), shown@));
                }
            },
            None => {},
        }
        let ghost with_failure = text@;
        match &self.diagnostic {
            Some(d) => {
                text.append("; diagnostic: ");
                text.append(d.message());
            },
            None => {},
        }
        let ghost before_completions = text@;
        let n = self.completion_diagnostics.len();
        let mut i: usize = 0;
        while i < n
            invariant
                n == self.completion_diagnostics@.len(),
                i <= n,
                text@ == before_completions + completion_clauses(self.completion_diagnostics@.take(i as int)),
            decreases n - i,
        {
            text.append("; completion diagnostic: ");
            text.append(self.completion_diagnostics[i].message());
            proof {
                assert(self.completion_diagnostics@.take(i + 1).drop_last() =~= self.completion_diagnostics@.take(
                    i as int,
                ));
                assert(text@ =~= before_completions + completion_clauses(
                    self.completion_diagnostics@.take(i + 1),
                ));
            }
            i = i + 1;
        }
        proof {
            assert(self.completion_diagnostics@.take(n as int) =~= self.completion_diagnostics@);
            assert(text@ =~= error_message(
                self.kind,
                self.context@.attempts,
                failure_text,
                self.diagnostic,
                self.completion_diagnostics@,
            ));
        }
        text
    }

    /// Consumes this error and returns the owned attempt failure, if any.
    pub fn into_last_failure(self) -> (r: Option<CasAttemptFailure<T, E>>)
        ensures
            r == self.spec_last_failure(),
    {
        self.last_failure
    }
}

/// Whether `b` is a clone of the retained failure `a`: both absent, or both
/// present with `b` a clone of `a`.
pub open spec fn retained_cloned<T, E: Clone>(
    a: Option<CasAttemptFailure<T, E>>,
    b: Option<CasAttemptFailure<T, E>>,
) -> bool {
    match (a, b) {
        (None, None) => true,
        (Some(x), Some(y)) => failure_cloned(x, y),
        _ => false,
    }
}

/// Whether `b` is a clone of the error `a`: the same terminal metadata and
/// diagnostics, with the retained failure cloned.
pub open spec fn error_cloned<T, E: Clone>(a: CasError<T, E>, b: CasError<T, E>) -> bool {
    &&& b.spec_kind() == a.spec_kind()
    &&& b.spec_termination() == a.spec_termination()
    &&& b.spec_context() == a.spec_context()
    &&& b.spec_diagnostic() == a.spec_diagnostic()
    &&& b.spec_completion_diagnostics() == a.spec_completion_diagnostics()
    &&& retained_cloned(a.spec_last_failure(), b.spec_last_failure())
}

impl<T, E: Clone> Clone for CasError<T, E> {
    /// Copies the terminal metadata and diagnostics and clones the retained
    /// failure, so a clone's retained failure is a clone of the original's.
    fn clone(&self) -> (r: Self)
        ensures
            error_cloned(*self, r),
    {
        let diagnostic = match &self.diagnostic {
            Some(d) => Some(d.clone()),
            None => None,
        };
        let mut completion_diagnostics: Vec<CasDiagnostic> = Vec::new();
        let n = self.completion_diagnostics.len();
        let mut i: usize = 0;
        while i < n
            invariant
                n == self.completion_diagnostics@.len(),
                i <= n,
                completion_diagnostics@ == self.completion_diagnostics@.take(i as int),
            decreases n - i,
        {
            completion_diagnostics.push(self.completion_diagnostics[i].clone());
            i = i + 1;
            assert(completion_diagnostics@ =~= self.completion_diagnostics@.take(i as int));
        }
        assert(completion_diagnostics@ =~= self.completion_diagnostics@);
        let last_failure = match &self.last_failure {
            Some(f) => Some(f.clone()),
            None => None,
        };
        CasError {
            kind: self.kind,
            termination: self.termination,
            context: self.context,
            diagnostic,
            completion_diagnostics,
            last_failure,
        }
    }
}

} // verus!
