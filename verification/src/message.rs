//! The texts in which the supervisor's answers reach the user interface.

use vstd::prelude::*;
use vstd::string::*;
use crate::error::{ErrorKind, SupervisorError};
use crate::supervisor::Reply;
use crate::text::{decimal, decimal_digits};

verus! {

/// The text of a reply. `path` is where the backend binary was looked for,
/// `reason` what the operating system said when it refused.
pub open spec fn reply_text(reply: Reply, path: Seq<char>, reason: Seq<char>) -> Seq<char> {
    match reply {
        Reply::Started { port } => "Server started on port "@ + decimal_digits(port as nat),
        Reply::AlreadyRunning => "Server already running"@,
        Reply::Stopped => "Server stopped"@,
        Reply::NotRunning => "Server not running"@,
        Reply::BinaryNotFound => "Server binary not found at: \""@ + path + "\""@,
        Reply::SpawnFailed => "Failed to start server at \""@ + path + "\": "@ + reason,
        Reply::ReadinessTimeout => "Backend failed to start within timeout"@,
        Reply::TerminationFailed => "Failed to stop server: "@ + reason,
    }
}

/// The kind of failure that a reply reports, if it reports one.
pub open spec fn reply_failure(reply: Reply) -> Option<ErrorKind> {
    match reply {
        Reply::BinaryNotFound => Some(ErrorKind::BinaryNotFound),
        Reply::SpawnFailed => Some(ErrorKind::SpawnFailed),
        Reply::ReadinessTimeout => Some(ErrorKind::ReadinessTimeout),
        Reply::TerminationFailed => Some(ErrorKind::TerminationFailed),
        _ => None,
    }
}

/// Turns a reply into what the command hands to the user interface: the
/// success text, or the failure with its kind and text.
pub fn render_reply(reply: Reply, path: &str, reason: &str) -> (result: Result<
    String,
    SupervisorError,
>)
    ensures
        result is Ok <==> reply.succeeded(),
        result matches Ok(text) ==> text@ == reply_text(reply, path@, reason@),
        result matches Err(error) ==> Some(error.kind) == reply_failure(reply) && error.message@
            == reply_text(reply, path@, reason@),
{
    match reply {
        Reply::Started { port } => {
            let mut text = String::from_str("Server started on port ");
            let number = decimal(port as u64);
            text.append(number.as_str());
            Ok(text)
        },
        Reply::AlreadyRunning => Ok(String::from_str("Server already running")),
        Reply::Stopped => Ok(String::from_str("Server stopped")),
        Reply::NotRunning => Ok(String::from_str("Server not running")),
        Reply::BinaryNotFound => {
            let mut message = String::from_str("Server binary not found at: \"");
            message.append(path);
            message.append("\"");
            Err(SupervisorError { kind: ErrorKind::BinaryNotFound, message })
        },
        Reply::SpawnFailed => {
            let mut message = String::from_str("Failed to start server at \"");
            message.append(path);
            message.append("\": ");
            message.append(reason);
            Err(SupervisorError { kind: ErrorKind::SpawnFailed, message })
        },
        Reply::ReadinessTimeout => Err(
            SupervisorError {
                kind: ErrorKind::ReadinessTimeout,
                message: String::from_str("Backend failed to start within timeout"),
            },
        ),
        Reply::TerminationFailed => {
            let mut message = String::from_str("Failed to stop server: ");
            message.append(reason);
            Err(SupervisorError { kind: ErrorKind::TerminationFailed, message })
        },
    }
}

} // verus!
