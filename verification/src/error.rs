//! The error values that the library reports.

use vstd::prelude::*;
use vstd::string::*;

verus! {

/// What went wrong, by fault domain, each with a message for the operator.
#[derive(Debug, Clone)]
pub enum StatuslineError {
    /// A path failed validation: a null byte, no canonical form, not a file,
    /// or not a transcript by its extension.
    InvalidPath(String),
    /// Settings were malformed or could not be read.
    Config(String),
    /// The primary store failed or a ledger amount left its range.
    Database(String),
    /// The file system failed on the mirror.
    Io(String),
}

impl StatuslineError {
    /// An `InvalidPath` error with the given message.
    pub fn invalid_path(message: &str) -> (e: StatuslineError)
        ensures
            e matches StatuslineError::InvalidPath(m) && m@ == message@,
    {
        StatuslineError::InvalidPath(message.to_owned())
    }

    /// The message that the error carries.
    pub open spec fn message_view(self) -> Seq<char> {
        match self {
            StatuslineError::InvalidPath(m) => m@,
            StatuslineError::Config(m) => m@,
            StatuslineError::Database(m) => m@,
            StatuslineError::Io(m) => m@,
        }
    }

    /// The label of the fault domain, as shown before the message.
    pub open spec fn label_view(self) -> Seq<char> {
        match self {
            StatuslineError::InvalidPath(_) => "Invalid path: "@,
            StatuslineError::Config(_) => "Configuration error: "@,
            StatuslineError::Database(_) => "Database error: "@,
            StatuslineError::Io(_) => "IO error: "@,
        }
    }

    /// The message that the error carries.
    pub fn message(&self) -> (m: &str)
        ensures
            m@ == self.message_view(),
    {
        match self {
            StatuslineError::InvalidPath(m) => m.as_str(),
            StatuslineError::Config(m) => m.as_str(),
            StatuslineError::Database(m) => m.as_str(),
            StatuslineError::Io(m) => m.as_str(),
        }
    }

    /// The error as one line of text: the fault domain, then the message.
    pub fn describe(&self) -> (s: String)
        ensures
            s@ == self.label_view() + self.message_view(),
    {
        let label = match self {
            StatuslineError::InvalidPath(_) => "Invalid path: ",
            StatuslineError::Config(_) => "Configuration error: ",
            StatuslineError::Database(_) => "Database error: ",
            StatuslineError::Io(_) => "IO error: ",
        };
        let mut s = String::from_str(label);
        s.append(self.message());
        s
    }
}

} // verus!
