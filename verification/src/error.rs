//! The single error value of the library: a kind and a readable message.

use vstd::prelude::*;

verus! {

/// Why an operation failed.
#[derive(Debug, Clone, Copy, PartialEq, Eq, Structural)]
pub enum ErrorKind {
    /// No process or window matches.
    NotFound,
    /// The executable could not be started.
    LaunchFailed,
    /// The operating system refused the handle to the process.
    AccessDenied,
    /// A read in the target failed or moved fewer bytes than asked.
    ReadFailed,
    /// A write in the target failed or moved fewer bytes than asked.
    WriteFailed,
    /// The path does not resolve, has no containing directory or is not text.
    InvalidPath,
    /// An address in a pointer chain is null, or lies outside the address
    /// space: the structure does not exist now.
    NotLoaded,
}

/// A failure, with the message to show.
#[derive(Debug)]
pub struct Error {
    pub kind: ErrorKind,
    pub message: String,
}

impl Error {
    pub fn new(kind: ErrorKind, message: String) -> (error: Error)
        ensures
            error.kind == kind,
            error.message == message,
    {
        Error { kind, message }
    }

    /// An error whose message is a fixed text.
    pub fn with_text(kind: ErrorKind, text: &str) -> (error: Error)
        ensures
            error.kind == kind,
            error.message@ == text@,
    {
        Error { kind, message: text.to_owned() }
    }

    /// The same error once more.
    pub fn duplicate(&self) -> (error: Error)
        ensures
            error == *self,
    {
        Error { kind: self.kind, message: self.message.clone() }
    }

    /// The message, as the text shown for this error.
    pub fn to_string(&self) -> (text: String)
        ensures
            text@ == self.message@,
    {
        self.message.clone()
    }
}

} // verus!
