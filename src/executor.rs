//! Decisions of the one-shot executor: the poll loop with its wall-clock
//! limit, the shaping of captured output, and the mapping of outcomes to
//! responses and stream events. The process itself is spawned, waited on
//! and killed by the caller, which hands each observation to these
//! functions and performs the action they return.

use vstd::prelude::*;
use vstd::utf8::{decode_utf8, valid_utf8};

use crate::text::{decimal_digits, with_decimal};
use crate::types::{ApiError, ErrorCode, ExecResponse, ExecStreamEvent};

verus! {

/// Errors of a one-shot execution.
#[derive(Debug)]
pub enum ExecError {
    /// The process exceeded its wall-clock limit.
    Timeout,
    /// A pipe, the job object or the process could not be created.
    ProcessCreationFailed(String),
    /// Execution is not available on this host.
    NotSupported(String),
}

/// Events of a streamed execution, as the readers and the waiter emit them.
#[derive(Debug)]
pub enum StreamEvent {
    /// A chunk of standard output.
    Stdout(String),
    /// A chunk of standard error.
    Stderr(String),
    /// The process exited with this code.
    Exit(i32),
    /// The process tree was killed at its wall-clock limit.
    Timeout,
}

/// Longest single wait on the process, in milliseconds.
pub const POLL_QUANTUM_MS: u64 = 100;

/// What kills a process tree that ran out of time.
#[derive(Debug, Clone, Copy, PartialEq, Eq, Structural)]
pub enum KillTarget {
    /// Terminate the job object, and with it every process in the tree.
    Job,
    /// The job object could not be created: terminate the root process.
    Process,
}

/// What the poll loop does after one wait of at most a quantum.
#[derive(Debug, Clone, Copy, PartialEq, Eq, Structural)]
pub enum PollAction {
    /// The process exited: collect its code and output.
    Collect,
    /// Wait another quantum.
    KeepWaiting,
    /// The limit is exceeded: kill the tree and report a timeout.
    Kill(KillTarget),
}

/// The poll loop's decision, from whether the process exited during the last
/// wait and the wall time elapsed since the spawn.
pub open spec fn poll_action(exited: bool, elapsed_ms: nat, timeout_ms: nat, job_created: bool) -> PollAction {
    if exited {
        PollAction::Collect
    } else if elapsed_ms > timeout_ms {
        PollAction::Kill(if job_created { KillTarget::Job } else { KillTarget::Process })
    } else {
        PollAction::KeepWaiting
    }
}

/// Decides the next step of the poll loop.
pub fn poll_decision(exited: bool, elapsed_ms: u64, timeout_ms: u64, job_created: bool) -> (r: PollAction)
    ensures
        r == poll_action(exited, elapsed_ms as nat, timeout_ms as nat, job_created),
{
    if exited {
        PollAction::Collect
    } else if elapsed_ms > timeout_ms {
        if job_created {
            PollAction::Kill(KillTarget::Job)
        } else {
            PollAction::Kill(KillTarget::Process)
        }
    } else {
        PollAction::KeepWaiting
    }
}

/// The instants, in milliseconds since the spawn, at which a poll loop
/// checks the clock: increasing, the first within one quantum of the spawn
/// and each within one quantum of the one before.
pub open spec fn quantum_spaced(ticks: Seq<nat>) -> bool {
    &&& ticks.len() > 0
    &&& ticks[0] <= POLL_QUANTUM_MS
    &&& forall|i: int| 0 <= i < ticks.len() - 1 ==> ticks[i] < #[trigger] ticks[i + 1] <= ticks[i] + POLL_QUANTUM_MS
}

proof fn first_tick_over(ticks: Seq<nat>, timeout_ms: nat, i: int) -> (k: int)
    requires
        0 <= i < ticks.len(),
        ticks.last() > timeout_ms,
        forall|j: int| 0 <= j < i ==> ticks[j] <= timeout_ms,
    ensures
        i <= k < ticks.len(),
        ticks[k] > timeout_ms,
        forall|j: int| 0 <= j < k ==> ticks[j] <= timeout_ms,
    decreases ticks.len() - i,
{
    if ticks[i] > timeout_ms {
        i
    } else {
        first_tick_over(ticks, timeout_ms, i + 1)
    }
}

/// A process that has not exited when the wall clock passes its limit is
/// killed at the first check after the deadline, and that check comes
/// within one poll quantum of the deadline; every earlier check waits on.
pub proof fn lemma_timeout_kills_within_quantum(ticks: Seq<nat>, timeout_ms: nat, job_created: bool)
    requires
        quantum_spaced(ticks),
        ticks.last() > timeout_ms,
    ensures
        exists|k: int|
            0 <= k < ticks.len() && ticks[k] <= timeout_ms + POLL_QUANTUM_MS && (poll_action(false, #[trigger] ticks[k], timeout_ms, job_created) is Kill)
                && forall|j: int| 0 <= j < k ==> poll_action(false, #[trigger] ticks[j], timeout_ms, job_created) == PollAction::KeepWaiting,
{
    let k = first_tick_over(ticks, timeout_ms, 0);
    if k > 0 {
        assert(ticks[k - 1] < ticks[(k - 1) + 1] <= ticks[k - 1] + POLL_QUANTUM_MS);
    }
    assert(poll_action(false, ticks[k], timeout_ms, job_created) is Kill);
}

/// What `String::from_utf8_lossy` makes of a byte sequence.
pub uninterp spec fn lossy_text(b: Seq<u8>) -> Seq<char>;

/// Relies on `String::from_utf8_lossy`: valid UTF-8 is decoded unchanged,
/// and the result depends on the bytes alone.
#[verifier::external_body]
fn decode_lossy(b: &[u8]) -> (r: String)
    ensures
        r@ == lossy_text(b@),
        valid_utf8(b@) ==> r@ == decode_utf8(b@),
{
    String::from_utf8_lossy(b).into_owned()
}

/// The exit code as the process reported it, read as a signed value.
pub open spec fn signed_exit_code(code: u32) -> i32 {
    if code < 0x8000_0000 {
        code as i32
    } else {
        (code as int - 0x1_0000_0000) as i32
    }
}

/// Reads an exit code reported as unsigned as the signed value it encodes.
pub fn exit_code_from_raw(code: u32) -> (r: i32)
    ensures
        r == signed_exit_code(code),
{
    if code < 0x8000_0000 {
        code as i32
    } else {
        let below: i64 = code as i64 - 0x1_0000_0000;
        below as i32
    }
}

/// The result of an execution that ended before its limit: the exit code
/// and the captured streams decoded as UTF-8 with lossy substitution.
pub fn finish_execution(exit_code: u32, stdout: &[u8], stderr: &[u8]) -> (r: (i32, String, String))
    ensures
        r.0 == signed_exit_code(exit_code),
        r.1@ == lossy_text(stdout@),
        r.2@ == lossy_text(stderr@),
{
    (exit_code_from_raw(exit_code), decode_lossy(stdout), decode_lossy(stderr))
}

/// The event for a chunk read from the standard output (`is_stdout`) or
/// standard error pipe.
pub fn pipe_chunk_event(chunk: &[u8], is_stdout: bool) -> (r: StreamEvent)
    ensures
        is_stdout ==> (r matches StreamEvent::Stdout(s) && s@ == lossy_text(chunk@)),
        !is_stdout ==> (r matches StreamEvent::Stderr(s) && s@ == lossy_text(chunk@)),
{
    let text = decode_lossy(chunk);
    if is_stdout {
        StreamEvent::Stdout(text)
    } else {
        StreamEvent::Stderr(text)
    }
}

/// The terminal event of the waiter: a timeout, or the exit code.
pub fn wait_end_event(timed_out: bool, exit_code: u32) -> (r: StreamEvent)
    ensures
        timed_out ==> r is Timeout,
        !timed_out ==> (r matches StreamEvent::Exit(c) && c == signed_exit_code(exit_code)),
{
    if timed_out {
        StreamEvent::Timeout
    } else {
        StreamEvent::Exit(exit_code_from_raw(exit_code))
    }
}

/// The error of a host without process execution.
pub fn unsupported_platform_error() -> (r: ExecError)
    ensures
        r matches ExecError::NotSupported(m) && m@ == "Command execution only supported on Windows"@,
{
    ExecError::NotSupported(String::from_str("Command execution only supported on Windows"))
}

/// The error of a failed process creation, carrying the OS error code.
pub fn spawn_failed_error(os_error: u32) -> (r: ExecError)
    ensures
        r matches ExecError::ProcessCreationFailed(m) && m@ == "CreateProcessW failed with error "@ + decimal_digits(os_error as nat),
{
    ExecError::ProcessCreationFailed(with_decimal("CreateProcessW failed with error ", os_error as u64))
}

/// The error of a failed pipe creation for the named stream.
pub fn pipe_failed_error(is_stdout: bool) -> (r: ExecError)
    ensures
        is_stdout ==> (r matches ExecError::ProcessCreationFailed(m) && m@ == "Failed to create stdout pipe"@),
        !is_stdout ==> (r matches ExecError::ProcessCreationFailed(m) && m@ == "Failed to create stderr pipe"@),
{
    if is_stdout {
        ExecError::ProcessCreationFailed(String::from_str("Failed to create stdout pipe"))
    } else {
        ExecError::ProcessCreationFailed(String::from_str("Failed to create stderr pipe"))
    }
}

/// Message of a timed-out execution.
pub open spec fn timeout_message() -> Seq<char> {
    "Process exceeded timeout"@
}

/// The HTTP status and body that answer a one-shot execution: 200 with the
/// response, 408 with code `TIMEOUT` and the limit as detail `timeout_ms`,
/// 500 with code `INTERNAL`, or 400 with code `NOT_SUPPORTED`.
pub fn exec_outcome_response(
    result: Result<(i32, String, String), ExecError>,
    timeout_ms: u64,
    duration_ms: u64,
) -> (r: (u16, Result<ExecResponse, ApiError>))
    ensures
        match result {
            Ok((code, out, err)) => r.0 == 200 && (r.1 matches Ok(resp) && resp.exit_code == code
                && resp.stdout@ == out@ && resp.stderr@ == err@ && resp.duration_ms == duration_ms),
            Err(ExecError::Timeout) => r.0 == 408 && (r.1 matches Err(e) && e.error.code == ErrorCode::Timeout
                && e.error.message@ == timeout_message() && e.error.details.extra@.len() == 1
                && e.error.details.extra@[0].0@ == "timeout_ms"@ && e.error.details.extra@[0].1 == timeout_ms),
            Err(ExecError::ProcessCreationFailed(m)) => r.0 == 500 && (r.1 matches Err(e)
                && e.error.code == ErrorCode::Internal && e.error.message@ == m@ && e.error.details.extra@.len() == 0),
            Err(ExecError::NotSupported(m)) => r.0 == 400 && (r.1 matches Err(e)
                && e.error.code == ErrorCode::NotSupported && e.error.message@ == m@ && e.error.details.extra@.len() == 0),
        },
{
    match result {
        Ok((exit_code, stdout, stderr)) => (200, Ok(ExecResponse { exit_code, stdout, stderr, duration_ms })),
        Err(ExecError::Timeout) => {
            let mut details: Vec<(String, u64)> = Vec::new();
            details.push((String::from_str("timeout_ms"), timeout_ms));
            (408, Err(ApiError::with_details(ErrorCode::Timeout, String::from_str("Process exceeded timeout"), details)))
        },
        Err(ExecError::ProcessCreationFailed(msg)) => (500, Err(ApiError::new(ErrorCode::Internal, msg))),
        Err(ExecError::NotSupported(msg)) => (400, Err(ApiError::new(ErrorCode::NotSupported, msg))),
    }
}

/// The client event for an executor event; `duration_ms` is the time since
/// the request arrived. A timeout becomes an error event.
pub fn stream_event_to_wire(event: StreamEvent, duration_ms: u64) -> (r: ExecStreamEvent)
    ensures
        match event {
            StreamEvent::Stdout(c) => r matches ExecStreamEvent::Stdout { chunk } && chunk@ == c@,
            StreamEvent::Stderr(c) => r matches ExecStreamEvent::Stderr { chunk } && chunk@ == c@,
            StreamEvent::Exit(code) => r == (ExecStreamEvent::Exit { exit_code: code, duration_ms }),
            StreamEvent::Timeout => r matches ExecStreamEvent::Error { error } && error@ == timeout_message(),
        },
{
    match event {
        StreamEvent::Stdout(chunk) => ExecStreamEvent::Stdout { chunk },
        StreamEvent::Stderr(chunk) => ExecStreamEvent::Stderr { chunk },
        StreamEvent::Exit(exit_code) => ExecStreamEvent::Exit { exit_code, duration_ms },
        StreamEvent::Timeout => ExecStreamEvent::Error { error: String::from_str("Process exceeded timeout") },
    }
}

/// The client event for an execution that could not start.
pub fn exec_error_to_wire(error: ExecError) -> (r: ExecStreamEvent)
    ensures
        match error {
            ExecError::Timeout => r matches ExecStreamEvent::Error { error } && error@ == timeout_message(),
            ExecError::ProcessCreationFailed(m) => r matches ExecStreamEvent::Error { error } && error@ == m@,
            ExecError::NotSupported(m) => r matches ExecStreamEvent::Error { error } && error@ == m@,
        },
{
    match error {
        ExecError::Timeout => ExecStreamEvent::Error { error: String::from_str("Process exceeded timeout") },
        ExecError::ProcessCreationFailed(m) => ExecStreamEvent::Error { error: m },
        ExecError::NotSupported(m) => ExecStreamEvent::Error { error: m },
    }
}

/// Whether a client event ends the stream.
pub fn is_final_event(event: &ExecStreamEvent) -> (r: bool)
    ensures
        r == (event is Exit || event is Error),
{
    match event {
        ExecStreamEvent::Exit { .. } => true,
        ExecStreamEvent::Error { .. } => true,
        _ => false,
    }
}

/// The name under which a client event is sent.
pub open spec fn event_name_text(event: ExecStreamEvent) -> Seq<char> {
    match event {
        ExecStreamEvent::Stdout { .. } => "stdout"@,
        ExecStreamEvent::Stderr { .. } => "stderr"@,
        ExecStreamEvent::Exit { .. } => "exit"@,
        ExecStreamEvent::Error { .. } => "error"@,
    }
}

/// Returns the name under which a client event is sent.
pub fn event_name(event: &ExecStreamEvent) -> (r: String)
    ensures
        r@ == event_name_text(*event),
{
    match event {
        ExecStreamEvent::Stdout { .. } => String::from_str("stdout"),
        ExecStreamEvent::Stderr { .. } => String::from_str("stderr"),
        ExecStreamEvent::Exit { .. } => String::from_str("exit"),
        ExecStreamEvent::Error { .. } => String::from_str("error"),
    }
}

} // verus!
