//! Decision logic of a supervisor that launches one backend server process,
//! waits for it to become ready, and stops it again.
//!
//! The library performs no input or output. A host creates processes, sends
//! HTTP requests and sleeps; it reports what happened as plain values, and the
//! library answers with the next thing to do.
//!
//! - `supervisor`: the state machine, its model, and the start and stop
//!   commands.
//! - `readiness`: the policy and the moves of readiness polling.
//! - `laws`: what is proved of the state machine.
//! - `launch`: the binary, the environment and the addresses of the backend.
//! - `http`: the status check and the log commands, read off HTTP answers.
//! - `message` and `error`: the texts and failures that reach the user
//!   interface.
//! - `text`: numbers as text.

pub mod error;
pub mod http;
pub mod launch;
pub mod laws;
pub mod message;
pub mod readiness;
pub mod supervisor;
pub mod text;
