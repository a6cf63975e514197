//! The failures that the engine reports: a kind and a message.

use vstd::prelude::*;

verus! {

/// What went wrong.
#[derive(Debug, Clone, Copy, PartialEq, Eq, Structural)]
pub enum FilterErrorKind {
    /// No filter list has the given id.
    ListNotFound,
    /// A filter list with the given id exists already.
    ListExists,
    /// The list holds no rule with the given pattern.
    RuleNotFound,
    /// A rule with an empty pattern was handed in.
    InvalidRule,
    /// The text of a filter list could not be fetched.
    FetchFailed,
    /// A stored state is not the state of any engine.
    InvalidState,
}

/// A failure of an operation of the engine. No failure is fatal: the engine
/// is left as it was, and the operation can be tried again.
#[derive(Debug, PartialEq, Eq)]
pub struct FilterError {
    pub kind: FilterErrorKind,
    pub message: String,
}

impl FilterErrorKind {
    /// The message of an error of this kind that carries no text of its own.
    pub open spec fn spec_description(self) -> Seq<char> {
        match self {
            FilterErrorKind::ListNotFound => "Filter list not found"@,
            FilterErrorKind::ListExists => "Filter list already exists"@,
            FilterErrorKind::RuleNotFound => "Rule not found"@,
            FilterErrorKind::InvalidRule => "Rule pattern is empty"@,
            FilterErrorKind::FetchFailed => "Failed to fetch filter list"@,
            FilterErrorKind::InvalidState => "Stored state is not valid"@,
        }
    }

    /// The message of an error of this kind that carries no text of its own.
    pub fn description(self) -> (text: &'static str)
        ensures
            text@ == self.spec_description(),
    {
        match self {
            FilterErrorKind::ListNotFound => "Filter list not found",
            FilterErrorKind::ListExists => "Filter list already exists",
            FilterErrorKind::RuleNotFound => "Rule not found",
            FilterErrorKind::InvalidRule => "Rule pattern is empty",
            FilterErrorKind::FetchFailed => "Failed to fetch filter list",
            FilterErrorKind::InvalidState => "Stored state is not valid",
        }
    }
}

impl FilterError {
    /// Whether this is the error of `kind` with that kind's own message.
    pub open spec fn is_plain(self, kind: FilterErrorKind) -> bool {
        self.kind == kind && self.message@ == kind.spec_description()
    }

    /// The error of `kind` with that kind's own message.
    pub fn of_kind(kind: FilterErrorKind) -> (e: FilterError)
        ensures
            e.is_plain(kind),
    {
        FilterError { kind, message: kind.description().to_string() }
    }

    /// The error that a list's text could not be fetched, with the reason
    /// that the fetch gave.
    pub fn fetch_failed(reason: String) -> (e: FilterError)
        ensures
            e.kind == FilterErrorKind::FetchFailed,
            e.message@ == reason@,
    {
        FilterError { kind: FilterErrorKind::FetchFailed, message: reason }
    }
}

} // verus!
