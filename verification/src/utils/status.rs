//! The outcome of a remote call as the caller sees it.

use vstd::prelude::*;

verus! {

/// The kinds of failure that the scheduler reports to its callers.
#[derive(Clone, Copy, Debug, PartialEq, Eq, Structural)]
pub enum Code {
    /// The operation was given up.
    Aborted,
    /// The system is not in the state that the operation needs.
    FailedPrecondition,
    /// The operation is not offered.
    Unimplemented,
    /// The operation cannot be served at the moment.
    Unavailable,
}

/// What a failure says beyond its code and message: the precondition that
/// was violated, where to read more, and a message for the user.
#[derive(Debug, PartialEq, Eq)]
pub struct ErrorDetails {
    pub violation_type: String,
    pub violation_subject: String,
    pub violation_description: String,
    pub help_description: String,
    pub help_url: String,
    pub locale: String,
    pub localized_message: String,
}

/// What an `ErrorDetails` holds.
pub struct ErrorDetailsView {
    pub violation_type: Seq<char>,
    pub violation_subject: Seq<char>,
    pub violation_description: Seq<char>,
    pub help_description: Seq<char>,
    pub help_url: Seq<char>,
    pub locale: Seq<char>,
    pub localized_message: Seq<char>,
}

impl View for ErrorDetails {
    type V = ErrorDetailsView;

    open spec fn view(&self) -> ErrorDetailsView {
        ErrorDetailsView {
            violation_type: self.violation_type@,
            violation_subject: self.violation_subject@,
            violation_description: self.violation_description@,
            help_description: self.help_description@,
            help_url: self.help_url@,
            locale: self.locale@,
            localized_message: self.localized_message@,
        }
    }
}

/// A failure of a remote call.
#[derive(Debug, PartialEq, Eq)]
pub struct Status {
    pub code: Code,
    pub message: String,
    pub details: Option<ErrorDetails>,
}

/// What a `Status` holds.
pub struct StatusView {
    pub code: Code,
    pub message: Seq<char>,
    pub details: Option<ErrorDetailsView>,
}

impl View for Status {
    type V = StatusView;

    open spec fn view(&self) -> StatusView {
        StatusView {
            code: self.code,
            message: self.message@,
            details: match self.details {
                Some(d) => Some(d@),
                None => None,
            },
        }
    }
}

impl Status {
    /// A failure of kind `Aborted` with this message and no details.
    pub fn aborted(message: &str) -> (r: Status)
        ensures
            r@ == (StatusView { code: Code::Aborted, message: message@, details: None }),
    {
        Status { code: Code::Aborted, message: message.to_owned(), details: None }
    }

    /// A failure of kind `Unavailable` with this message and no details.
    pub fn unavailable(message: &str) -> (r: Status)
        ensures
            r@ == (StatusView { code: Code::Unavailable, message: message@, details: None }),
    {
        Status { code: Code::Unavailable, message: message.to_owned(), details: None }
    }

    /// A failure with details.
    pub fn with_error_details(code: Code, message: &str, details: ErrorDetails) -> (r: Status)
        ensures
            r@ == (StatusView { code, message: message@, details: Some(details@) }),
    {
        Status { code, message: message.to_owned(), details: Some(details) }
    }
}

} // verus!
