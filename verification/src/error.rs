//! The error value every fallible operation of the crate returns.

use vstd::prelude::*;
use vstd::string::StringExecFns;
use crate::text::joined;

verus! {

/// What stands between the kind and the message where an error is written in
/// one line.
pub const KIND_END: &'static str = ": ";

/// What an [`Error`] stands for in contracts: its kind and its message.
pub struct ErrorView {
    pub kind: Seq<char>,
    pub message: Seq<char>,
}

/// A failure: a machine-checkable kind and a message for people.
#[derive(Debug, Clone, PartialOrd, PartialEq)]
pub struct Error {
    error_kind: String,
    message: String,
}

impl View for Error {
    type V = ErrorView;

    closed spec fn view(&self) -> ErrorView {
        ErrorView { kind: self.error_kind@, message: self.message@ }
    }
}

impl Error {
    /// An error of the given kind with the given message.
    pub fn new(error_kind: &str, message: &str) -> (error: Error)
        ensures
            error@.kind == error_kind@,
            error@.message == message@,
    {
        Error { error_kind: String::from_str(error_kind), message: String::from_str(message) }
    }

    /// An error of the given kind whose message is `summary` followed by
    /// `detail`.
    pub fn with_detail(error_kind: &str, summary: &str, detail: &str) -> (error: Error)
        ensures
            error@.kind == error_kind@,
            error@.message == summary@ + detail@,
    {
        Error { error_kind: String::from_str(error_kind), message: joined(summary, detail) }
    }

    /// The error in one line: its kind, a colon and a space, and its message.
    pub fn to_text(&self) -> (line: String)
        ensures
            line@ == self@.kind + KIND_END@ + self@.message,
    {
        let line = joined(self.error_kind.as_str(), KIND_END);
        joined(line.as_str(), self.message.as_str())
    }

    /// The kind of failure.
    pub fn error_kind(&self) -> (kind: &str)
        ensures
            kind@ == self@.kind,
    {
        self.error_kind.as_str()
    }

    /// The message that describes the failure.
    pub fn message(&self) -> (message: &str)
        ensures
            message@ == self@.message,
    {
        self.message.as_str()
    }
}

} // verus!
