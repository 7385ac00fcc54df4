//! How one file's transfer ended, and the error taxonomy of a whole
//! install run.

use vstd::prelude::*;

verus! {

/// The outcome of attempting one remote file: either its body was
/// transferred to the destination handle (possibly cut short by a local
/// write failure, which stops writing but is not fatal), or the attempt
/// failed in one of three ways, each carrying the underlying message.
#[derive(Clone, Debug, PartialEq, Eq)]
pub enum FileOutcome {
    /// The byte stream was consumed to its end, or a local write error
    /// stopped writing early; either way the file counts as done.
    Completed,
    /// The destination file could not be created.
    CreateFailed(String),
    /// The fetch could not even be initiated.
    FetchFailed(String),
    /// The byte stream failed after it had begun.
    StreamFailed(String),
}

/// The fatal error of an install run. Every variant aborts the whole
/// install and leaves no record.
#[derive(Clone, Debug, PartialEq, Eq)]
pub enum InstallError {
    /// The destination file could not be created or opened.
    LocalIOError(String),
    /// The request could not be initiated.
    FetchError(String),
    /// The response body failed while it was being read.
    StreamError(String),
}

impl InstallError {
    /// The underlying message, as the single string-typed error handed to
    /// the caller.
    pub fn into_message(self) -> (r: String)
        ensures
            r@ == self.message_view(),
    {
        match self {
            InstallError::LocalIOError(m) => m,
            InstallError::FetchError(m) => m,
            InstallError::StreamError(m) => m,
        }
    }

    /// The message carried by any variant.
    pub open spec fn message_view(self) -> Seq<char> {
        match self {
            InstallError::LocalIOError(m) => m@,
            InstallError::FetchError(m) => m@,
            InstallError::StreamError(m) => m@,
        }
    }
}

} // verus!
