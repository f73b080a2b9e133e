//! Reading what the backend answered over HTTP: the health check, the log
//! list, and the clearing of the logs.
//!
//! The host sends the requests. It hands over what came back: the status and
//! the body of an answer, or the reason why there was none.

use vstd::prelude::*;
use vstd::string::*;
use crate::error::{ErrorKind, SupervisorError};
use crate::readiness::ProbeOutcome;

verus! {

/// The error with which `serde_json` refuses a text.
#[verifier::external_type_specification]
#[verifier::external_body]
pub struct ExJsonError(serde_json::Error);

/// The text that `reqwest::StatusCode` displays for a status code: the number
/// followed by the canonical reason phrase of the code.
pub uninterp spec fn status_line(code: u16) -> Seq<char>;

/// What `serde_json::from_slice` makes of a body that is read as a list of
/// strings: the strings, or `None` where the body is no JSON array of strings.
pub uninterp spec fn decoded_lines(body: Seq<u8>) -> Option<Seq<Seq<char>>>;

/// Whether `code` lies in the range that an HTTP status code may take.
pub open spec fn valid_status(code: u16) -> bool {
    100 <= code <= 999
}

/// Whether `code` is a success status.
pub open spec fn success_status(code: u16) -> bool {
    200 <= code <= 299
}

/// How a status is named in a message: by its status line, or as invalid
/// where it is no status code at all.
pub open spec fn status_text(code: u16) -> Seq<char> {
    if valid_status(code) {
        status_line(code)
    } else {
        "invalid status code"@
    }
}

/// The message for a request that was answered with a status that is no
/// success: what was attempted, a colon, and the status.
pub open spec fn refusal_text(attempt: Seq<char>, status: Seq<char>) -> Seq<char> {
    attempt + ": "@ + status
}

/// Calls `reqwest::StatusCode::from_u16` and renders the status with its
/// `Display` impl. The conversion is refused exactly for codes outside
/// 100..=999; for the others the rendering is a function of the code alone.
#[verifier::external_body]
fn render_status(code: u16) -> (line: Option<String>)
    ensures
        line is Some <==> valid_status(code),
        line matches Some(text) ==> text@ == status_line(code),
{
    match reqwest::StatusCode::from_u16(code) {
        Ok(status) => Some(status.to_string()),
        Err(_) => None,
    }
}

/// Calls `serde_json::from_slice` for a `Vec<String>`. Whether the body is
/// accepted, and the strings it then yields, depend on the bytes alone.
#[verifier::external_body]
fn decode_lines(body: &[u8]) -> (decoded: Result<Vec<String>, serde_json::Error>)
    ensures
        decoded matches Ok(lines) ==> decoded_lines(body@) == Some(lines.deep_view()),
        decoded is Err ==> decoded_lines(body@) is None,
{
    serde_json::from_slice::<Vec<String>>(body)
}

/// An HTTP answer as the host received it.
#[derive(Clone, Debug, PartialEq, Eq)]
pub struct HttpResponse {
    pub status: u16,
    pub body: Vec<u8>,
}

/// True exactly for the success statuses, 200 to 299.
pub fn is_success(code: u16) -> (yes: bool)
    ensures
        yes == success_status(code),
{
    200 <= code && code <= 299
}

/// Names a status for a message.
pub fn describe_status(code: u16) -> (text: String)
    ensures
        text@ == status_text(code),
{
    match render_status(code) {
        Some(line) => line,
        None => String::from_str("invalid status code"),
    }
}

/// The failure of a request that was answered with a status that is no
/// success. `attempt` says what was attempted, `status` names the status.
pub fn refusal(attempt: &str, status: &str) -> (error: SupervisorError)
    ensures
        error.kind == ErrorKind::ProbeFailed,
        error.message@ == refusal_text(attempt@, status@),
{
    let mut message = String::from_str(attempt);
    message.append(": ");
    message.append(status);
    SupervisorError::probe_failed(message)
}

/// The log list out of a decoded body: the lines, or a failure where the body
/// could not be decoded.
pub fn decoded_logs<E>(decoded: Result<Vec<String>, E>) -> (result: Result<
    Vec<String>,
    SupervisorError,
>)
    ensures
        decoded matches Ok(lines) ==> result == Ok::<Vec<String>, SupervisorError>(lines),
        decoded is Err ==> (result matches Err(error) && error.kind == ErrorKind::ProbeFailed
            && error.message@ == "error decoding response body"@),
{
    match decoded {
        Ok(lines) => Ok(lines),
        Err(_) => Err(
            SupervisorError::probe_failed(String::from_str("error decoding response body")),
        ),
    }
}

/// Reads the outcome of a health probe. The backend is up exactly if the
/// endpoint answered with a success status: an answer with another status,
/// or no answer at all, means that it is not. Where the probe could not be
/// made, `probe` holds the reason, and the check fails with it.
pub fn check_server_status(probe: Result<ProbeOutcome, String>) -> (result: Result<
    bool,
    SupervisorError,
>)
    ensures
        probe matches Ok(outcome) ==> result == Ok::<bool, SupervisorError>(outcome.ready()),
        probe matches Err(reason) ==> (result matches Err(error) && error.kind
            == ErrorKind::ProbeFailed && error.message@ == "Failed to check server: "@ + reason@),
{
    match probe {
        Ok(outcome) => Ok(outcome.is_ready()),
        Err(reason) => {
            let mut message = String::from_str("Failed to check server: ");
            message.append(reason.as_str());
            Err(SupervisorError::probe_failed(message))
        },
    }
}

/// Reads the answer to the request for the log list. A success status with a
/// body that is a JSON array of strings yields these strings. Everything else
/// is a failure: no answer (with the host's reason as the message), a status
/// that is no success, or a body that cannot be decoded.
pub fn get_logs(response: Result<HttpResponse, String>) -> (result: Result<
    Vec<String>,
    SupervisorError,
>)
    ensures
        result is Ok <==> (response matches Ok(answer) && success_status(answer.status)
            && decoded_lines(answer.body@) is Some),
        result matches Ok(lines) ==> Some(lines.deep_view()) == decoded_lines(
            response->Ok_0.body@,
        ),
        result matches Err(error) ==> error.kind == ErrorKind::ProbeFailed && error.message@ == (
        match response {
            Err(reason) => reason@,
            Ok(answer) => if success_status(answer.status) {
                "error decoding response body"@
            } else {
                refusal_text("Failed to fetch logs"@, status_text(answer.status))
            },
        }),
{
    match response {
        Err(reason) => Err(SupervisorError::probe_failed(reason)),
        Ok(answer) => {
            if is_success(answer.status) {
                decoded_logs(decode_lines(answer.body.as_slice()))
            } else {
                let status = describe_status(answer.status);
                Err(refusal("Failed to fetch logs", status.as_str()))
            }
        },
    }
}

/// Reads the answer to the request that clears the logs: done on a success
/// status, a failure on any other status and where there was no answer (with
/// the host's reason as the message).
pub fn clear_logs(response: Result<u16, String>) -> (result: Result<(), SupervisorError>)
    ensures
        result is Ok <==> (response matches Ok(status) && success_status(status)),
        result matches Err(error) ==> error.kind == ErrorKind::ProbeFailed && error.message@ == (
        match response {
            Err(reason) => reason@,
            Ok(status) => refusal_text("Failed to clear logs"@, status_text(status)),
        }),
{
    match response {
        Err(reason) => Err(SupervisorError::probe_failed(reason)),
        Ok(status) => {
            if is_success(status) {
                Ok(())
            } else {
                let text = describe_status(status);
                Err(refusal("Failed to clear logs", text.as_str()))
            }
        },
    }
}

} // verus!
