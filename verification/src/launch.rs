//! How the backend is launched and reached: where its binary lies, which
//! environment it is given, and the addresses of its endpoints.

use vstd::prelude::*;
use vstd::string::*;
use crate::text::{decimal, decimal_digits};

verus! {

/// The port that the backend of the basic desktop application listens on.
pub const BACKEND_PORT: u16 = 3005;

/// The port on which the backend of the desktop shell serves its logs.
pub const LOG_PORT: u16 = 8080;

/// How many log entries are asked for at once.
pub const LOG_LIMIT: u64 = 1000;

/// The operating systems for which a backend binary is bundled.
#[derive(Clone, Copy, Debug, PartialEq, Eq, Structural)]
pub enum Platform {
    MacOs,
    Windows,
    Linux,
}

/// The name of the directory, below the application's resource directory,
/// that holds the backend binary.
pub open spec fn binary_directory() -> Seq<char> {
    "server"@
}

/// The file name of the backend binary for a platform.
pub open spec fn binary_name(platform: Platform) -> Seq<char> {
    match platform {
        Platform::MacOs => "server-macos-arm64"@,
        Platform::Windows => "server-win-x64.exe"@,
        Platform::Linux => "server-linux-x64"@,
    }
}

/// The environment of the backend: production mode, the port to listen on,
/// the loopback host to bind, and the mark that it runs embedded.
pub open spec fn environment(port: u16) -> Seq<(Seq<char>, Seq<char>)> {
    seq![
        ("NODE_ENV"@, "production"@),
        ("PORT"@, decimal_digits(port as nat)),
        ("HOST"@, "127.0.0.1"@),
        ("TAURI"@, "1"@),
    ]
}

/// What the backend serves.
#[derive(Clone, Copy, Debug, PartialEq, Eq, Structural)]
pub enum Endpoint {
    /// The health route that readiness polling asks.
    Health,
    /// The route that the status check asks.
    Status,
    /// The newest log entries, at most `limit` of them.
    LogEntries { limit: u64 },
    /// The route that clears the logs.
    ClearLogs,
}

/// The path and query of an endpoint.
pub open spec fn endpoint_path(endpoint: Endpoint) -> Seq<char> {
    match endpoint {
        Endpoint::Health => "/api/health"@,
        Endpoint::Status => "/api/hello"@,
        Endpoint::LogEntries { limit } => "/api/logs/entries?limit="@ + decimal_digits(
            limit as nat,
        ),
        Endpoint::ClearLogs => "/api/logs/clear"@,
    }
}

/// The address of an endpoint of the backend on the local machine.
pub open spec fn endpoint_address(port: u16, endpoint: Endpoint) -> Seq<char> {
    "http://localhost:"@ + decimal_digits(port as nat) + endpoint_path(endpoint)
}

/// Where the backend binary lies, relative to the resource directory.
#[derive(Clone, Debug, PartialEq, Eq)]
pub struct BinaryLocation {
    pub directory: String,
    pub file_name: String,
}

/// How the host is to create the backend process.
#[derive(Clone, Debug, PartialEq, Eq)]
pub struct LaunchPlan {
    /// The path of the binary to run.
    pub program: String,
    /// The variables to set, as pairs of name and value.
    pub environment: Vec<(String, String)>,
    /// Whether the standard output and the standard error of the process are
    /// to be captured rather than inherited.
    pub capture_output: bool,
}

/// The place of the backend binary for a platform.
pub fn backend_binary(platform: Platform) -> (location: BinaryLocation)
    ensures
        location.directory@ == binary_directory(),
        location.file_name@ == binary_name(platform),
{
    let file_name = match platform {
        Platform::MacOs => String::from_str("server-macos-arm64"),
        Platform::Windows => String::from_str("server-win-x64.exe"),
        Platform::Linux => String::from_str("server-linux-x64"),
    };
    BinaryLocation { directory: String::from_str("server"), file_name }
}

/// The environment that the backend is given when it is to listen on `port`.
pub fn backend_environment(port: u16) -> (variables: Vec<(String, String)>)
    ensures
        variables.deep_view() == environment(port),
{
    let mut variables: Vec<(String, String)> = Vec::new();
    variables.push((String::from_str("NODE_ENV"), String::from_str("production")));
    variables.push((String::from_str("PORT"), decimal(port as u64)));
    variables.push((String::from_str("HOST"), String::from_str("127.0.0.1")));
    variables.push((String::from_str("TAURI"), String::from_str("1")));
    assert(variables.deep_view() =~= environment(port));
    variables
}

/// The plan for launching the binary at `program` so that it listens on
/// `port`: with the backend's environment and with its output captured.
pub fn launch_plan(program: &str, port: u16) -> (plan: LaunchPlan)
    ensures
        plan.program@ == program@,
        plan.environment.deep_view() == environment(port),
        plan.capture_output,
{
    LaunchPlan {
        program: String::from_str(program),
        environment: backend_environment(port),
        capture_output: true,
    }
}

/// The address at which the host reaches an endpoint of the backend.
pub fn endpoint_url(port: u16, endpoint: Endpoint) -> (url: String)
    ensures
        url@ == endpoint_address(port, endpoint),
{
    let mut url = String::from_str("http://localhost:");
    let number = decimal(port as u64);
    url.append(number.as_str());
    match endpoint {
        Endpoint::Health => {
            url.append("/api/health");
        },
        Endpoint::Status => {
            url.append("/api/hello");
        },
        Endpoint::LogEntries { limit } => {
            url.append("/api/logs/entries?limit=");
            let count = decimal(limit);
            url.append(count.as_str());
        },
        Endpoint::ClearLogs => {
            url.append("/api/logs/clear");
        },
    }
    assert(url@ =~= endpoint_address(port, endpoint));
    url
}

} // verus!
