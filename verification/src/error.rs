//! Errors of planning.
use vstd::prelude::*;
use vstd::string::*;

verus! {

/// What sort of thing went wrong.
#[derive(Clone, Copy, PartialEq, Eq, Structural, Debug)]
pub enum ErrorKind {
    /// The statement is not valid; the text says why.
    Invalid,
    /// The statement asks for a feature that is not supported; the text names it.
    Unsupported,
    /// A database name has other than one component; the text is the name.
    OverqualifiedDatabaseName,
    /// A schema name has more than two components; the text is the name.
    OverqualifiedSchemaName,
    /// An item name has not between one and three components; the text is the name.
    MisqualifiedName,
    /// The catalog refused a lookup.
    Catalog,
    /// The query engine refused a request.
    Engine,
    /// A text is not a duration.
    Duration,
    /// A text is not a URL.
    Url,
    /// A text is not a regular expression.
    Regex,
    /// A text is not an integer.
    Integer,
    /// A point in time lies before the Unix epoch.
    Clock,
}

/// An error of planning: its kind, and a text for the user.
#[derive(Debug)]
pub struct PlanError {
    pub kind: ErrorKind,
    pub text: String,
}

/// The contents of a [`PlanError`].
#[verifier::ext_equal]
pub struct ErrorView {
    pub kind: ErrorKind,
    pub text: Seq<char>,
}

impl View for PlanError {
    type V = ErrorView;

    open spec fn view(&self) -> ErrorView {
        ErrorView { kind: self.kind, text: self.text@ }
    }
}

impl Clone for PlanError {
    fn clone(&self) -> (copy: PlanError)
        ensures
            copy@ == self@,
    {
        PlanError { kind: self.kind, text: self.text.clone() }
    }
}

/// The contents of a result.
pub open spec fn viewed<T: View>(result: Result<T, PlanError>) -> Result<T::V, ErrorView> {
    match result {
        Ok(value) => Ok(value@),
        Err(error) => Err(error@),
    }
}

/// The error of a statement that is not valid.
pub open spec fn invalid(text: Seq<char>) -> ErrorView {
    ErrorView { kind: ErrorKind::Invalid, text }
}

/// The error of a statement that asks for an unsupported feature.
pub open spec fn unsupported(feature: Seq<char>) -> ErrorView {
    ErrorView { kind: ErrorKind::Unsupported, text: feature }
}

impl PlanError {
    /// The error of a statement that is not valid.
    pub fn invalid(text: String) -> (error: PlanError)
        ensures
            error@ == invalid(text@),
    {
        PlanError { kind: ErrorKind::Invalid, text }
    }

    /// The error of a statement that asks for an unsupported feature.
    pub fn unsupported(feature: &str) -> (error: PlanError)
        ensures
            error@ == unsupported(feature@),
    {
        PlanError { kind: ErrorKind::Unsupported, text: feature.to_owned() }
    }
}

} // verus!
