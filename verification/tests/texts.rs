use backend_supervisor::error::{ErrorKind, SupervisorError};
use backend_supervisor::launch::{
    backend_binary, backend_environment, endpoint_url, launch_plan, BinaryLocation, Endpoint,
    Platform, BACKEND_PORT, LOG_LIMIT, LOG_PORT,
};
use backend_supervisor::message::render_reply;
use backend_supervisor::supervisor::Reply;
use backend_supervisor::text::decimal;

fn failure(kind: ErrorKind, message: &str) -> Result<String, SupervisorError> {
    Err(SupervisorError { kind, message: message.to_string() })
}

fn pair(name: &str, value: &str) -> (String, String) {
    (name.to_string(), value.to_string())
}

#[test]
fn numbers_are_written_in_decimal() {
    assert_eq!(decimal(0), "0");
    assert_eq!(decimal(7), "7");
    assert_eq!(decimal(10), "10");
    assert_eq!(decimal(3005), "3005");
    assert_eq!(decimal(65_535), "65535");
    assert_eq!(decimal(1_234_567_890), "1234567890");
    assert_eq!(decimal(u64::MAX), "18446744073709551615");
}

#[test]
fn successes_are_rendered_as_texts() {
    assert_eq!(
        render_reply(Reply::Started { port: 3005 }, "/opt/app/server", ""),
        Ok("Server started on port 3005".to_string())
    );
    assert_eq!(
        render_reply(Reply::Started { port: 8080 }, "", ""),
        Ok("Server started on port 8080".to_string())
    );
    assert_eq!(
        render_reply(Reply::AlreadyRunning, "", ""),
        Ok("Server already running".to_string())
    );
    assert_eq!(render_reply(Reply::Stopped, "", ""), Ok("Server stopped".to_string()));
    assert_eq!(render_reply(Reply::NotRunning, "", ""), Ok("Server not running".to_string()));
}

#[test]
fn a_missing_binary_is_reported_with_its_path() {
    assert_eq!(
        render_reply(Reply::BinaryNotFound, "/res/server/server-linux-x64", "unused"),
        failure(
            ErrorKind::BinaryNotFound,
            "Server binary not found at: \"/res/server/server-linux-x64\""
        )
    );
}

#[test]
fn a_refused_process_is_reported_with_path_and_reason() {
    assert_eq!(
        render_reply(Reply::SpawnFailed, "/res/server-linux-x64", "Permission denied"),
        failure(
            ErrorKind::SpawnFailed,
            "Failed to start server at \"/res/server-linux-x64\": Permission denied"
        )
    );
}

#[test]
fn a_timeout_is_reported() {
    assert_eq!(
        render_reply(Reply::ReadinessTimeout, "/res/server", "unused"),
        failure(ErrorKind::ReadinessTimeout, "Backend failed to start within timeout")
    );
}

#[test]
fn a_failed_termination_is_reported_with_its_reason() {
    assert_eq!(
        render_reply(Reply::TerminationFailed, "unused", "No such process (os error 3)"),
        failure(ErrorKind::TerminationFailed, "Failed to stop server: No such process (os error 3)")
    );
}

#[test]
fn each_platform_has_its_binary() {
    let at = |file_name: &str| BinaryLocation {
        directory: "server".to_string(),
        file_name: file_name.to_string(),
    };
    assert_eq!(backend_binary(Platform::MacOs), at("server-macos-arm64"));
    assert_eq!(backend_binary(Platform::Windows), at("server-win-x64.exe"));
    assert_eq!(backend_binary(Platform::Linux), at("server-linux-x64"));
}

#[test]
fn the_backend_is_given_mode_port_host_and_mark() {
    assert_eq!(
        backend_environment(BACKEND_PORT),
        vec![
            pair("NODE_ENV", "production"),
            pair("PORT", "3005"),
            pair("HOST", "127.0.0.1"),
            pair("TAURI", "1"),
        ]
    );
    assert_eq!(backend_environment(80)[1], pair("PORT", "80"));
}

#[test]
fn the_launch_plan_captures_the_output() {
    let plan = launch_plan("/res/server/server-linux-x64", 3005);
    assert_eq!(plan.program, "/res/server/server-linux-x64");
    assert_eq!(plan.environment, backend_environment(3005));
    assert!(plan.capture_output);
}

#[test]
fn endpoints_are_addressed_on_the_local_machine() {
    assert_eq!(endpoint_url(8080, Endpoint::Health), "http://localhost:8080/api/health");
    assert_eq!(endpoint_url(BACKEND_PORT, Endpoint::Status), "http://localhost:3005/api/hello");
    assert_eq!(
        endpoint_url(LOG_PORT, Endpoint::LogEntries { limit: LOG_LIMIT }),
        "http://localhost:8080/api/logs/entries?limit=1000"
    );
    assert_eq!(endpoint_url(LOG_PORT, Endpoint::ClearLogs), "http://localhost:8080/api/logs/clear");
    assert_eq!(endpoint_url(0, Endpoint::Health), "http://localhost:0/api/health");
}
