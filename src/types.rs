//! Request, response and event types exchanged with clients.

use vstd::prelude::*;

verus! {

/// Server capabilities reported by the health endpoint.
#[derive(Debug, Clone, Copy, PartialEq, Eq, Structural)]
pub struct Capabilities {
    /// Whether the pseudo-console facility is available.
    pub conpty: bool,
    /// Whether the one-shot execution API is available.
    pub automation: bool,
    /// Whether interactive sessions are available.
    pub terminal: bool,
}

/// Response of the health endpoint.
#[derive(Debug, Clone)]
pub struct HealthResponse {
    /// Server status, "ok" when serving.
    pub status: String,
    /// Server version string.
    pub version: String,
    /// Available capabilities.
    pub capabilities: Capabilities,
}

/// Shell kind used for execution and sessions.
#[derive(Debug, Clone, Copy, PartialEq, Eq, Structural)]
pub enum Shell {
    Cmd,
    Powershell,
}

impl Default for Shell {
    fn default() -> (r: Shell)
        ensures
            r == Shell::Cmd,
    {
        Shell::Cmd
    }
}


/// The timeout applied when a request names none: ten minutes.
pub fn default_timeout() -> (r: u64)
    ensures
        r == 600_000,
{
    600_000
}

/// The output encoding hint applied when a request names none.
pub fn default_encoding() -> (r: String)
    ensures
        r@ == "utf-8"@,
{
    String::from_str("utf-8")
}

/// Request of a one-shot execution.
#[derive(Debug, Clone)]
pub struct ExecRequest {
    /// Shell to run the command under.
    pub shell: Shell,
    /// Command to execute.
    pub command: String,
    /// Command arguments.
    pub args: Vec<String>,
    /// Working directory.
    pub cwd: Option<String>,
    /// Environment overlay as name/value pairs; a later pair overrides an
    /// earlier one with the same name.
    pub env: Vec<(String, String)>,
    /// Wall-clock limit in milliseconds.
    pub timeout_ms: u64,
    /// Output encoding hint (informational).
    pub encoding: String,
}

/// Result of a one-shot execution.
#[derive(Debug, Clone)]
pub struct ExecResponse {
    /// Process exit code.
    pub exit_code: i32,
    /// Captured standard output.
    pub stdout: String,
    /// Captured standard error.
    pub stderr: String,
    /// Execution duration in milliseconds.
    pub duration_ms: u64,
}

/// Events of a streamed execution, as sent to the client.
#[derive(Debug, Clone)]
pub enum ExecStreamEvent {
    /// A chunk of standard output.
    Stdout { chunk: String },
    /// A chunk of standard error.
    Stderr { chunk: String },
    /// The process exited.
    Exit { exit_code: i32, duration_ms: u64 },
    /// The execution failed or timed out.
    Error { error: String },
}

/// Session initialisation options.
#[derive(Debug, Clone, Copy, PartialEq, Eq, Structural)]
pub struct SessionInit {
    /// Switch both console streams to UTF-8 before any user input.
    pub force_utf8: bool,
}

impl Default for SessionInit {
    fn default() -> (r: SessionInit)
        ensures
            r.force_utf8 == false,
    {
        SessionInit { force_utf8: false }
    }
}

/// Request to create an interactive session.
#[derive(Debug, Clone)]
pub struct SessionCreateRequest {
    /// Shell to spawn.
    pub shell: Shell,
    /// Working directory.
    pub cwd: Option<String>,
    /// Environment overlay as name/value pairs.
    pub env: Vec<(String, String)>,
    /// Terminal width in character cells.
    pub cols: u16,
    /// Terminal height in character cells.
    pub rows: u16,
    /// Idle time in seconds after which an unattached session is reaped.
    pub idle_timeout_sec: u64,
    /// Initialisation options.
    pub init: SessionInit,
}

/// Terminal width applied when a request names none.
pub fn default_cols() -> (r: u16)
    ensures
        r == 120,
{
    120
}

/// Terminal height applied when a request names none.
pub fn default_rows() -> (r: u16)
    ensures
        r == 30,
{
    30
}

/// Idle timeout in seconds applied when a request names none.
pub fn default_idle_timeout() -> (r: u64)
    ensures
        r == 600,
{
    600
}

/// Response to a session creation.
#[derive(Debug, Clone)]
pub struct SessionCreateResponse {
    /// Session identifier.
    pub id: String,
    /// Path of the attachment endpoint of the session.
    pub ws_url: String,
    /// Creation instant (RFC 3339).
    pub created_at: String,
}

/// Lifecycle state of a session.
#[derive(Debug, Clone, Copy, PartialEq, Eq, Structural)]
pub enum SessionState {
    Running,
    Exited,
}

/// Session metadata returned by the list and get operations.
#[derive(Debug, Clone)]
pub struct SessionInfo {
    /// Session identifier.
    pub id: String,
    /// Shell kind.
    pub shell: Shell,
    /// Process identifier of the shell.
    pub pid: u32,
    /// Lifecycle state.
    pub state: SessionState,
    /// Whether a client is attached.
    pub attached: bool,
    /// Terminal width.
    pub cols: u16,
    /// Terminal height.
    pub rows: u16,
    /// Creation instant (RFC 3339).
    pub created_at: String,
    /// Last activity instant (RFC 3339).
    pub last_activity_at: String,
}

/// Signals that can be delivered to a session.
#[derive(Debug, Clone, Copy, PartialEq, Eq, Structural)]
pub enum Signal {
    CtrlC,
    CtrlBreak,
    Terminate,
}

/// Request body of the signal endpoint.
#[derive(Debug, Clone, Copy, PartialEq, Eq, Structural)]
pub struct SignalRequest {
    pub signal: Signal,
}

/// Control messages carried by text frames, client to server.
#[derive(Debug, Clone)]
pub enum WsControlMessage {
    /// Resize the terminal.
    Resize { cols: u16, rows: u16 },
    /// Deliver a signal, named "ctrl_c", "ctrl_break" or "terminate".
    Signal { name: String },
    /// Keep-alive probe.
    Ping { t: u64 },
}

/// Control messages carried by text frames, server to client.
#[derive(Debug, Clone, Copy, PartialEq, Eq, Structural)]
pub enum WsServerMessage {
    /// Answer to a ping, with the same `t`.
    Pong { t: u64 },
}

/// Error codes of API responses.
#[derive(Debug, Clone, Copy, PartialEq, Eq, Structural)]
pub enum ErrorCode {
    BadRequest,
    NotFound,
    Timeout,
    Internal,
    NotSupported,
}

/// Additional error details: named integer values, such as the timeout
/// that an execution exceeded.
#[derive(Debug, Clone)]
pub struct ErrorDetails {
    pub extra: Vec<(String, u64)>,
}

/// Unified error response.
#[derive(Debug, Clone)]
pub struct ApiError {
    pub error: ApiErrorInner,
}

/// Body of an error response.
#[derive(Debug, Clone)]
pub struct ApiErrorInner {
    /// Error code.
    pub code: ErrorCode,
    /// Human-readable message.
    pub message: String,
    /// Additional details; left out of the wire form when empty.
    pub details: ErrorDetails,
}

/// Whether the details hold nothing (and are then left out of the wire form).
pub fn is_empty_details(details: &ErrorDetails) -> (r: bool)
    ensures
        r == (details.extra@.len() == 0),
{
    details.extra.len() == 0
}

impl ApiError {
    /// An error with the given code and message and no details.
    pub fn new(code: ErrorCode, message: String) -> (r: ApiError)
        ensures
            r.error.code == code,
            r.error.message@ == message@,
            r.error.details.extra@.len() == 0,
    {
        ApiError { error: ApiErrorInner { code, message, details: ErrorDetails { extra: Vec::new() } } }
    }

    /// An error with the given code, message and details.
    pub fn with_details(code: ErrorCode, message: String, details: Vec<(String, u64)>) -> (r: ApiError)
        ensures
            r.error.code == code,
            r.error.message@ == message@,
            r.error.details.extra@ == details@,
    {
        ApiError { error: ApiErrorInner { code, message, details: ErrorDetails { extra: details } } }
    }
}

} // verus!
