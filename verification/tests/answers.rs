use backend_supervisor::error::{ErrorKind, SupervisorError};
use backend_supervisor::http::{
    check_server_status, clear_logs, decoded_logs, describe_status, get_logs, is_success, refusal,
    HttpResponse,
};
use backend_supervisor::readiness::ProbeOutcome;

fn answer(status: u16, body: &str) -> Result<HttpResponse, String> {
    Ok(HttpResponse { status, body: body.as_bytes().to_vec() })
}

fn probe_failure(message: &str) -> SupervisorError {
    SupervisorError { kind: ErrorKind::ProbeFailed, message: message.to_string() }
}

#[test]
fn the_status_check_is_true_for_a_success_answer() {
    assert_eq!(check_server_status(Ok(ProbeOutcome::Answered { status: 200 })), Ok(true));
    assert_eq!(check_server_status(Ok(ProbeOutcome::Answered { status: 204 })), Ok(true));
}

#[test]
fn the_status_check_is_false_when_nothing_listens() {
    assert_eq!(check_server_status(Ok(ProbeOutcome::NoAnswer)), Ok(false));
}

#[test]
fn the_status_check_is_false_for_other_statuses() {
    assert_eq!(check_server_status(Ok(ProbeOutcome::Answered { status: 500 })), Ok(false));
    assert_eq!(check_server_status(Ok(ProbeOutcome::Answered { status: 301 })), Ok(false));
    assert_eq!(check_server_status(Ok(ProbeOutcome::Answered { status: 0 })), Ok(false));
}

#[test]
fn the_status_check_fails_when_the_probe_could_not_be_made() {
    assert_eq!(
        check_server_status(Err("builder error".to_string())),
        Err(probe_failure("Failed to check server: builder error"))
    );
}

#[test]
fn success_statuses_are_200_to_299() {
    assert!(!is_success(199));
    assert!(is_success(200));
    assert!(is_success(299));
    assert!(!is_success(300));
    assert!(!is_success(0));
    assert!(!is_success(u16::MAX));
}

#[test]
fn a_status_is_named_by_its_number_and_reason() {
    assert_eq!(describe_status(200), "200 OK");
    assert_eq!(describe_status(404), "404 Not Found");
    assert_eq!(describe_status(500), "500 Internal Server Error");
    assert_eq!(describe_status(299), "299 <unknown status code>");
    assert_eq!(describe_status(100), "100 Continue");
    assert_eq!(describe_status(999), "999 <unknown status code>");
}

#[test]
fn a_number_that_is_no_status_code_is_named_invalid() {
    assert_eq!(describe_status(99), "invalid status code");
    assert_eq!(describe_status(0), "invalid status code");
    assert_eq!(describe_status(1000), "invalid status code");
}

#[test]
fn a_refusal_names_the_attempt_and_the_status() {
    assert_eq!(
        refusal("Failed to fetch logs", "503 Service Unavailable"),
        probe_failure("Failed to fetch logs: 503 Service Unavailable")
    );
}

#[test]
fn the_logs_are_the_strings_of_the_body() {
    assert_eq!(
        get_logs(answer(200, r#"["started", "listening on 8080"]"#)),
        Ok(vec!["started".to_string(), "listening on 8080".to_string()])
    );
    assert_eq!(get_logs(answer(200, "[]")), Ok(Vec::new()));
    assert_eq!(
        get_logs(answer(201, "  [ \"a\\nb\", \"\\u00e9\" ]\n")),
        Ok(vec!["a\nb".to_string(), "\u{e9}".to_string()])
    );
}

#[test]
fn a_body_that_is_no_list_of_strings_fails_the_logs() {
    let undecodable = probe_failure("error decoding response body");
    assert_eq!(get_logs(answer(200, r#"{"entries": []}"#)), Err(undecodable.clone()));
    assert_eq!(get_logs(answer(200, "[1, 2]")), Err(undecodable.clone()));
    assert_eq!(get_logs(answer(200, r#"["a"] trailing"#)), Err(undecodable.clone()));
    assert_eq!(get_logs(answer(200, "")), Err(undecodable));
}

#[test]
fn a_status_that_is_no_success_fails_the_logs() {
    assert_eq!(
        get_logs(answer(404, r#"["ignored"]"#)),
        Err(probe_failure("Failed to fetch logs: 404 Not Found"))
    );
    assert_eq!(
        get_logs(answer(500, "")),
        Err(probe_failure("Failed to fetch logs: 500 Internal Server Error"))
    );
    assert_eq!(
        get_logs(answer(42, "[]")),
        Err(probe_failure("Failed to fetch logs: invalid status code"))
    );
}

#[test]
fn no_answer_fails_the_logs_with_the_reason() {
    assert_eq!(
        get_logs(Err("error sending request".to_string())),
        Err(probe_failure("error sending request"))
    );
}

#[test]
fn decoded_lines_pass_through_and_a_decoding_error_becomes_a_failure() {
    let lines = vec!["one".to_string(), "two".to_string()];
    assert_eq!(decoded_logs::<()>(Ok(lines.clone())), Ok(lines));
    assert_eq!(
        decoded_logs(Err("expected value at line 1 column 1")),
        Err(probe_failure("error decoding response body"))
    );
}

#[test]
fn clearing_succeeds_on_a_success_status() {
    assert_eq!(clear_logs(Ok(200)), Ok(()));
    assert_eq!(clear_logs(Ok(204)), Ok(()));
}

#[test]
fn clearing_fails_on_other_statuses_and_without_an_answer() {
    assert_eq!(
        clear_logs(Ok(403)),
        Err(probe_failure("Failed to clear logs: 403 Forbidden"))
    );
    assert_eq!(
        clear_logs(Ok(7)),
        Err(probe_failure("Failed to clear logs: invalid status code"))
    );
    assert_eq!(
        clear_logs(Err("connection refused".to_string())),
        Err(probe_failure("connection refused"))
    );
}

#[test]
fn a_failure_hands_out_its_message() {
    let error = SupervisorError::probe_failed("no route".to_string());
    assert_eq!(error.kind, ErrorKind::ProbeFailed);
    assert_eq!(error.into_message(), "no route");
}
