//! What can go wrong while notes are listed or searched.

use vstd::prelude::*;
use vstd::string::StringExecFns;

verus! {

/// The kind of a failure, without its message.
#[derive(Clone, Copy, Debug, PartialEq, Eq, Structural)]
pub enum ErrorKind {
    /// A path has no final component to take a name from.
    FileStem,
    /// The path of a note to be reported is not valid text.
    InvalidPath,
    /// The search pattern is not a regular expression that compiles.
    GrepRegex,
    /// Reading through a note's content failed.
    Io,
}

/// A failure. Any of them ends the call that met it; no partial result is kept.
#[derive(Debug)]
pub enum Error {
    /// A path has no final component to take a name from.
    FileStem,
    /// The path of a note to be reported is not valid text.
    InvalidPath,
    /// The search pattern did not compile; the text is the compiler's message.
    GrepRegex(String),
    /// Reading through a note's content failed; the text is the reader's message.
    Io(String),
}

impl Error {
    /// The kind of this failure.
    pub open spec fn spec_kind(&self) -> ErrorKind {
        match self {
            Error::FileStem => ErrorKind::FileStem,
            Error::InvalidPath => ErrorKind::InvalidPath,
            Error::GrepRegex(_) => ErrorKind::GrepRegex,
            Error::Io(_) => ErrorKind::Io,
        }
    }

    /// The text that describes this failure to a reader.
    pub open spec fn spec_message(&self) -> Seq<char> {
        match self {
            Error::FileStem => "file_stem error"@,
            Error::InvalidPath => "invalid path"@,
            Error::GrepRegex(text) => text@,
            Error::Io(text) => text@,
        }
    }

    /// The kind of this failure.
    #[verifier::when_used_as_spec(spec_kind)]
    pub fn kind(&self) -> (kind: ErrorKind)
        ensures
            kind == self.spec_kind(),
    {
        match self {
            Error::FileStem => ErrorKind::FileStem,
            Error::InvalidPath => ErrorKind::InvalidPath,
            Error::GrepRegex(_) => ErrorKind::GrepRegex,
            Error::Io(_) => ErrorKind::Io,
        }
    }

    /// The text that describes this failure to a reader.
    pub fn message(&self) -> (text: String)
        ensures
            text@ == self.spec_message(),
    {
        match self {
            Error::FileStem => String::from_str("file_stem error"),
            Error::InvalidPath => String::from_str("invalid path"),
            Error::GrepRegex(text) => text.clone(),
            Error::Io(text) => text.clone(),
        }
    }
}

} // verus!
