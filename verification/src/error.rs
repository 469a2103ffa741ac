//! Error type of the library.

use vstd::prelude::*;

verus! {

/// What an I/O failure reported: whether the file was missing, and the
/// failure's own message.
#[derive(Debug)]
pub struct IoFailure {
    pub not_found: bool,
    pub message: String,
}

/// Every error an ExifTool operation can produce.
#[derive(Debug)]
pub enum Error {
    /// An I/O failure.
    Io(IoFailure),
    /// The ExifTool process failed or reported an error.
    Process { message: String, exit_code: Option<i32> },
    /// Output could not be parsed.
    Parse(String),
    /// A requested tag was absent.
    TagNotFound(String),
    /// An argument was rejected.
    InvalidArgument(String),
    /// The `exiftool` executable could not be started.
    ExifToolNotFound,
    /// The lock around the process was poisoned.
    MutexPoisoned,
    /// JSON could not be converted.
    Serialization(String),
    /// An operation took too long.
    Timeout,
}

/// Result type of the library.
pub type Result<T> = std::result::Result<T, Error>;

/// The message text of an error, as its `Display` form shows it.
pub open spec fn error_text(e: Error) -> Seq<char> {
    match e {
        Error::Io(f) => "IO error: "@ + f.message@,
        Error::Process { message, .. } => "ExifTool process error: "@ + message@,
        Error::Parse(m) => "Parse error: "@ + m@,
        Error::TagNotFound(m) => "Tag not found: "@ + m@,
        Error::InvalidArgument(m) => "Invalid argument: "@ + m@,
        Error::ExifToolNotFound => "ExifTool not found in PATH. Please install ExifTool: https://exiftool.org/"@,
        Error::MutexPoisoned => "Internal mutex poisoned"@,
        Error::Serialization(m) => "Serialization error: "@ + m@,
        Error::Timeout => "Operation timed out"@,
    }
}

/// Whether an error is of a kind that a retry may cure: I/O, timeouts,
/// process failures and a poisoned lock.
pub open spec fn is_transient(e: Error) -> bool {
    match e {
        Error::Io(_) | Error::Timeout | Error::Process { .. } | Error::MutexPoisoned => true,
        _ => false,
    }
}

impl Error {
    /// A process error without exit code.
    pub fn process(message: &str) -> (e: Error)
        ensures
            e matches Error::Process { message: m, exit_code: None } && m@ == message@,
    {
        Error::Process { message: message.to_owned(), exit_code: None }
    }

    /// A process error with an exit code.
    pub fn process_with_code(message: &str, code: i32) -> (e: Error)
        ensures
            e matches Error::Process { message: m, exit_code: Some(c) } && m@ == message@ && c
                == code,
    {
        Error::Process { message: message.to_owned(), exit_code: Some(code) }
    }

    /// A parse error.
    pub fn parse(message: &str) -> (e: Error)
        ensures
            e matches Error::Parse(m) && m@ == message@,
    {
        Error::Parse(message.to_owned())
    }

    /// An invalid-argument error.
    pub fn invalid_arg(message: &str) -> (e: Error)
        ensures
            e matches Error::InvalidArgument(m) && m@ == message@,
    {
        Error::InvalidArgument(message.to_owned())
    }

    /// The error's message, as the `Display` form of the error.
    pub fn to_string(&self) -> (s: String)
        ensures
            s@ == error_text(*self),
    {
        match self {
            Error::Io(f) => crate::text::concat2("IO error: ", f.message.as_str()),
            Error::Process { message, .. } => crate::text::concat2(
                "ExifTool process error: ",
                message.as_str(),
            ),
            Error::Parse(m) => crate::text::concat2("Parse error: ", m.as_str()),
            Error::TagNotFound(m) => crate::text::concat2("Tag not found: ", m.as_str()),
            Error::InvalidArgument(m) => crate::text::concat2("Invalid argument: ", m.as_str()),
            Error::ExifToolNotFound => crate::text::owned(
                "ExifTool not found in PATH. Please install ExifTool: https://exiftool.org/",
            ),
            Error::MutexPoisoned => crate::text::owned("Internal mutex poisoned"),
            Error::Serialization(m) => crate::text::concat2("Serialization error: ", m.as_str()),
            Error::Timeout => crate::text::owned("Operation timed out"),
        }
    }
}

} // verus!
