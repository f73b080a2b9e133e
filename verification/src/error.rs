//! The failures that the supervisor reports.

use vstd::prelude::*;

verus! {

/// The kinds of failure.
#[derive(Clone, Copy, Debug, PartialEq, Eq, Structural)]
pub enum ErrorKind {
    /// The backend binary is missing at the expected path.
    BinaryNotFound,
    /// The operating system refused to create the process.
    SpawnFailed,
    /// No health probe succeeded before the timeout ran out.
    ReadinessTimeout,
    /// The process could not be terminated.
    TerminationFailed,
    /// A health or log request failed, or was answered with a status that is
    /// no success.
    ProbeFailed,
}

/// A failure: its kind, and the text that describes it to the user
/// interface.
#[derive(Clone, Debug, PartialEq, Eq)]
pub struct SupervisorError {
    pub kind: ErrorKind,
    pub message: String,
}

impl SupervisorError {
    /// The failure of a health or log request, described by `message`.
    pub fn probe_failed(message: String) -> (error: SupervisorError)
        ensures
            error.kind == ErrorKind::ProbeFailed,
            error.message == message,
    {
        SupervisorError { kind: ErrorKind::ProbeFailed, message }
    }

    /// The describing text, which is all that the user interface is handed.
    pub fn into_message(self) -> (message: String)
        ensures
            message == self.message,
    {
        self.message
    }
}

} // verus!
