use vstd::prelude::*;

verus! {

/// A failure of the external image tool, kept apart by kind so that the
/// boundary can report what went wrong: the process could not be spawned,
/// it exited with a non-zero status, it was terminated by a signal, or it
/// ran but produced output this library cannot read.
#[derive(Debug, Clone, PartialEq, Eq)]
pub enum ToolFailure {
    Spawn,
    Exit(i32),
    Signal,
    BadOutput,
}

/// The error taxonomy of the library: client-input errors, transient I/O
/// errors, external-tool errors, persistence errors, and lookups that found
/// nothing.
#[derive(Debug, Clone, PartialEq, Eq)]
pub enum Error {
    /// A bad request from the client (for example an upload without a
    /// filename); not a server fault.
    BadRequest(String),
    /// A runtime error such as a failed file operation.
    RuntimeError(String),
    /// The external image tool failed.
    ToolError(ToolFailure),
    /// The relational store failed or reported an invariant violation.
    DataError(String),
    /// The requested row does not exist.
    NotFound(String),
}

impl Error {
    /// A human-readable description of the error.
    pub fn message(&self) -> String {
        match self {
            Error::BadRequest(s) => String::from_str("Bad request: ").concat(s.as_str()),
            Error::RuntimeError(s) => String::from_str("Runtime error: ").concat(s.as_str()),
            Error::ToolError(f) => match f {
                ToolFailure::Spawn => String::from_str("Failed to run the image tool"),
                ToolFailure::Exit(_) => String::from_str("The image tool failed"),
                ToolFailure::Signal => String::from_str("The image tool was terminated by a signal"),
                ToolFailure::BadOutput => String::from_str("Malformed output from the image tool"),
            },
            Error::DataError(s) => String::from_str("Data error: ").concat(s.as_str()),
            Error::NotFound(s) => String::from_str("Not found: ").concat(s.as_str()),
        }
    }
}

} // verus!
