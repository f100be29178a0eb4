//! Errors: one kind and one message per failure.

use crate::engine::{error_message, error_text};
use tortank::turtle::turtle_doc::TurtleDocError;
use vstd::prelude::*;
use vstd::string::StringExecFns;

verus! {

/// What went wrong.
#[derive(Clone, Copy, Debug, PartialEq, Eq)]
pub enum ErrorKind {
    /// An operand names neither a file nor inline data.
    MissingInput,
    /// A text could not be parsed.
    Parse,
    /// Both operands of a binary operation failed.
    Combined,
    /// The output configuration holds a value that is not recognized.
    InvalidConfiguration,
    /// A file could not be read or written.
    Io,
    /// A structured record could not be translated.
    Translation,
    /// A component of a pattern could not be resolved into a node.
    PatternResolution,
}

/// A failure, as it is surfaced to the caller.
#[derive(Clone, Debug, PartialEq, Eq)]
pub struct Error {
    pub kind: ErrorKind,
    pub message: String,
}

/// Mathematical model of an [`Error`].
pub struct ErrorModel {
    pub kind: ErrorKind,
    pub message: Seq<char>,
}

impl View for Error {
    type V = ErrorModel;

    open spec fn view(&self) -> ErrorModel {
        ErrorModel { kind: self.kind, message: self.message@ }
    }
}

/// The message for an operand that names neither a file nor inline data.
pub open spec fn missing_text(key_path: Seq<char>, key_data: Seq<char>) -> Seq<char> {
    "missing path ('"@ + key_path + "') or data ("@ + key_data + ")"@
}

/// The message for two failures at once.
pub open spec fn combined_text(first: Seq<char>, second: Seq<char>) -> Seq<char> {
    "error:\n-"@ + first + "\n-"@ + second
}

/// An engine message as the engine displays it.
pub open spec fn displayed_text(message: Seq<char>) -> Seq<char> {
    "error: "@ + message
}

/// The message for an inline text that parses in neither syntax.
pub open spec fn unreadable_text(textual: Seq<char>, structured: Seq<char>) -> Seq<char> {
    "could not make doc from input:\n-"@ + displayed_text(textual) + "\n-"@ + displayed_text(
        structured,
    )
}

/// The message for an output type that is not recognized.
pub open spec fn invalid_output_text(value: Seq<char>) -> Seq<char> {
    "invalid output type '"@ + value + "': expected 'structured' or 'textual'"@
}

/// The message for inline data that is neither a text nor records.
pub open spec fn unsupported_text() -> Seq<char> {
    "not implemented yet."@
}

/// The message for a document that holds a list node and is asked for as text.
pub open spec fn unprintable_text() -> Seq<char> {
    "a statement with a list node cannot be written as text"@
}

/// The model of the failure that an operand without input gives.
pub open spec fn missing_input_model(key_path: Seq<char>, key_data: Seq<char>) -> ErrorModel {
    ErrorModel { kind: ErrorKind::MissingInput, message: missing_text(key_path, key_data) }
}

/// The model of the failure that two failed operands give.
pub open spec fn combined_model(first: ErrorModel, second: ErrorModel) -> ErrorModel {
    ErrorModel { kind: ErrorKind::Combined, message: combined_text(first.message, second.message) }
}

impl Error {
    /// A failure of the given kind with the given message.
    pub fn new(kind: ErrorKind, message: String) -> (error: Error)
        ensures
            error@ == (ErrorModel { kind, message: message@ }),
    {
        Error { kind, message }
    }

    /// A failure of the given kind with the message of a literal.
    pub fn of_text(kind: ErrorKind, message: &str) -> (error: Error)
        ensures
            error@ == (ErrorModel { kind, message: message@ }),
    {
        Error { kind, message: String::from_str(message) }
    }

    /// A failure of the given kind with the message of an engine error.
    pub fn from_engine(kind: ErrorKind, error: TurtleDocError) -> (out: Error)
        ensures
            out@ == (ErrorModel { kind, message: error_text(&error) }),
    {
        Error { kind, message: error_message(error) }
    }

    /// The failure of an operand that names neither a file nor inline data; the
    /// message names both fields.
    pub fn missing_input(key_path: &str, key_data: &str) -> (error: Error)
        ensures
            error@ == missing_input_model(key_path@, key_data@),
    {
        let mut message = String::from_str("missing path ('");
        message.append(key_path);
        message.append("') or data (");
        message.append(key_data);
        message.append(")");
        Error { kind: ErrorKind::MissingInput, message }
    }

    /// The failure of a binary operation whose two operands failed: both
    /// messages, the left one first.
    pub fn combined(first: &Error, second: &Error) -> (error: Error)
        ensures
            error@ == combined_model(first@, second@),
    {
        let mut message = String::from_str("error:\n-");
        message.append(first.message.as_str());
        message.append("\n-");
        message.append(second.message.as_str());
        Error { kind: ErrorKind::Combined, message }
    }

    /// The failure of an inline text that parses in neither syntax.
    pub fn unreadable(textual: &str, structured: &str) -> (error: Error)
        ensures
            error@ == (ErrorModel {
                kind: ErrorKind::Parse,
                message: unreadable_text(textual@, structured@),
            }),
    {
        let mut message = String::from_str("could not make doc from input:\n-");
        message.append("error: ");
        message.append(textual);
        message.append("\n-");
        message.append("error: ");
        message.append(structured);
        assert(message@ =~= unreadable_text(textual@, structured@));
        Error { kind: ErrorKind::Parse, message }
    }

    /// The failure of an output type that is not recognized; the message names
    /// the value.
    pub fn invalid_output(value: &str) -> (error: Error)
        ensures
            error@ == (ErrorModel {
                kind: ErrorKind::InvalidConfiguration,
                message: invalid_output_text(value@),
            }),
    {
        let mut message = String::from_str("invalid output type '");
        message.append(value);
        message.append("': expected 'structured' or 'textual'");
        Error { kind: ErrorKind::InvalidConfiguration, message }
    }

    /// The same failure with its message as the engine displays it.
    pub fn displayed(self) -> (error: Error)
        ensures
            error@ == (ErrorModel { kind: self.kind, message: displayed_text(self.message@) }),
    {
        let mut message = String::from_str("error: ");
        message.append(self.message.as_str());
        Error { kind: self.kind, message }
    }
}

} // verus!
