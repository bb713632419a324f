//! Owned diagnostic context and builder validation errors.
use vstd::prelude::*;

use super::kinds::CasDiagnosticKind;

verus! {

/// Execution diagnostic with a stable category and human-readable details.
///
/// Use [`Self::kind`] for classification; the message wording is not a
/// stable machine-readable protocol.
#[derive(Debug, PartialEq, Eq)]
pub struct CasDiagnostic {
    kind: CasDiagnosticKind,
    message: String,
}

impl CasDiagnostic {
    /// The stable category of this diagnostic.
    pub closed spec fn spec_kind(&self) -> CasDiagnosticKind {
        self.kind
    }

    /// The retained diagnostic text.
    pub closed spec fn spec_message(&self) -> Seq<char> {
        self.message@
    }

    /// Stores a diagnostic category and takes ownership of its message.
    pub fn new(kind: CasDiagnosticKind, message: String) -> (r: Self)
        ensures
            r.spec_kind() == kind,
            r.spec_message() == message@,
    {
        CasDiagnostic { kind, message }
    }

    /// Returns the stable category of this diagnostic.
    pub fn kind(&self) -> (r: CasDiagnosticKind)
        ensures
            r == self.spec_kind(),
    {
        self.kind
    }

    /// Returns the retained diagnostic details.
    pub fn message(&self) -> (r: &str)
        ensures
            r@ == self.spec_message(),
    {
        self.message.as_str()
    }

    /// Describes the diagnostic by its retained details.
    #[allow(clippy::inherent_to_string)]
    pub fn to_string(&self) -> (r: String)
        ensures
            r@ == self.spec_message(),
    {
        self.message.clone()
    }
}

/// Invalid CAS builder configuration.
#[derive(Debug, Clone, PartialEq, Eq)]
pub struct CasBuildError {
    field: &'static str,
    message: String,
}

impl CasBuildError {
    /// The configuration boundary that rejected the value.
    pub closed spec fn spec_field(&self) -> &'static str {
        self.field
    }

    /// The retained validation detail.
    pub closed spec fn spec_message(&self) -> Seq<char> {
        self.message@
    }

    /// Retains the invalid boundary and takes ownership of validation details.
    pub fn new(field: &'static str, message: String) -> (r: Self)
        ensures
            r.spec_field() == field,
            r.spec_message() == message@,
    {
        CasBuildError { field, message }
    }

    /// Returns the invalid configuration field.
    pub fn field(&self) -> (r: &'static str)
        ensures
            r == self.spec_field(),
    {
        self.field
    }

    /// Returns a human-readable validation message.
    pub fn message(&self) -> (r: &str)
        ensures
            r@ == self.spec_message(),
    {
        self.message.as_str()
    }

    /// Describes the rejected boundary and its validation detail.
    #[allow(clippy::inherent_to_string)]
    pub fn to_string(&self) -> (r: String)
        ensures
            r@ == "invalid CAS builder field `"@ + self.spec_field()@ + "`: "@ + self.spec_message(),
    {
        let mut text = String::new();
        text.append("invalid CAS builder field `");
        text.append(self.field);
        text.append("`: ");
        text.append(self.message.as_str());
        text
    }
}

impl Clone for CasDiagnostic {
    fn clone(&self) -> (r: Self)
        ensures
            r == *self,
    {
        CasDiagnostic { kind: self.kind, message: self.message.clone() }
    }
}

} // verus!
