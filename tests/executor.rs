use winpe_agent::executor::{
    exec_error_to_wire, exec_outcome_response, event_name, finish_execution, is_final_event, pipe_chunk_event,
    pipe_failed_error, poll_decision, spawn_failed_error, stream_event_to_wire, unsupported_platform_error,
    wait_end_event, ExecError, KillTarget, PollAction, StreamEvent,
};
use winpe_agent::types::{ErrorCode, ExecStreamEvent};

#[test]
fn poll_collects_after_exit() {
    assert_eq!(poll_decision(true, 10_000, 200, true), PollAction::Collect);
}

#[test]
fn poll_waits_until_deadline() {
    assert_eq!(poll_decision(false, 200, 200, true), PollAction::KeepWaiting);
    assert_eq!(poll_decision(false, 0, 0, false), PollAction::KeepWaiting);
}

#[test]
fn poll_kills_job_after_deadline() {
    assert_eq!(poll_decision(false, 201, 200, true), PollAction::Kill(KillTarget::Job));
}

#[test]
fn poll_kills_process_without_job() {
    assert_eq!(poll_decision(false, 300, 200, false), PollAction::Kill(KillTarget::Process));
}

#[test]
fn timeout_reached_within_one_quantum_of_deadline() {
    // checks every 100 ms; the limit is 200 ms
    let ticks = [100u64, 200, 300, 400];
    let first_kill = ticks
        .iter()
        .position(|t| matches!(poll_decision(false, *t, 200, true), PollAction::Kill(_)))
        .unwrap();
    assert_eq!(ticks[first_kill], 300);
    assert!(ticks[first_kill] <= 200 + 100);
}

#[test]
fn finish_decodes_output_and_exit_code() {
    let (code, out, err) = finish_execution(0, b"hi\r\n", b"");
    assert_eq!(code, 0);
    assert_eq!(out, "hi\r\n");
    assert_eq!(err, "");
}

#[test]
fn finish_substitutes_invalid_utf8() {
    let (_, out, _) = finish_execution(1, &[0x61, 0xFF, 0x62], b"");
    assert_eq!(out, "a\u{FFFD}b");
}

#[test]
fn exit_code_reads_as_signed() {
    let (code, _, _) = finish_execution(0xFFFF_FFFF, b"", b"");
    assert_eq!(code, -1);
    let (code, _, _) = finish_execution(0x8000_0000, b"", b"");
    assert_eq!(code, i32::MIN);
}

#[test]
fn chunk_events_are_tagged() {
    match pipe_chunk_event(b"a", true) {
        StreamEvent::Stdout(s) => assert_eq!(s, "a"),
        other => panic!("unexpected {:?}", other),
    }
    match pipe_chunk_event(b"b", false) {
        StreamEvent::Stderr(s) => assert_eq!(s, "b"),
        other => panic!("unexpected {:?}", other),
    }
}

#[test]
fn wait_end_events() {
    assert!(matches!(wait_end_event(true, 0), StreamEvent::Timeout));
    assert!(matches!(wait_end_event(false, 3), StreamEvent::Exit(3)));
}

#[test]
fn ok_outcome_answers_200() {
    let (status, body) = exec_outcome_response(Ok((0, "hi\r\n".to_string(), String::new())), 5000, 12);
    assert_eq!(status, 200);
    let resp = body.unwrap();
    assert_eq!(resp.exit_code, 0);
    assert!(resp.stdout.contains("hi\r\n"));
    assert_eq!(resp.stderr, "");
    assert_eq!(resp.duration_ms, 12);
}

#[test]
fn timeout_outcome_answers_408_with_limit() {
    let (status, body) = exec_outcome_response(Err(ExecError::Timeout), 200, 250);
    assert_eq!(status, 408);
    let err = body.unwrap_err();
    assert_eq!(err.error.code, ErrorCode::Timeout);
    assert_eq!(err.error.message, "Process exceeded timeout");
    assert_eq!(err.error.details.extra, vec![("timeout_ms".to_string(), 200)]);
}

#[test]
fn creation_failure_answers_500() {
    let (status, body) = exec_outcome_response(Err(spawn_failed_error(5)), 200, 1);
    assert_eq!(status, 500);
    let err = body.unwrap_err();
    assert_eq!(err.error.code, ErrorCode::Internal);
    assert_eq!(err.error.message, "CreateProcessW failed with error 5");
    assert!(err.error.details.extra.is_empty());
}

#[test]
fn unsupported_answers_400() {
    let (status, body) = exec_outcome_response(Err(unsupported_platform_error()), 200, 1);
    assert_eq!(status, 400);
    let err = body.unwrap_err();
    assert_eq!(err.error.code, ErrorCode::NotSupported);
    assert_eq!(err.error.message, "Command execution only supported on Windows");
}

#[test]
fn pipe_failure_messages() {
    match pipe_failed_error(true) {
        ExecError::ProcessCreationFailed(m) => assert_eq!(m, "Failed to create stdout pipe"),
        other => panic!("unexpected {:?}", other),
    }
    match pipe_failed_error(false) {
        ExecError::ProcessCreationFailed(m) => assert_eq!(m, "Failed to create stderr pipe"),
        other => panic!("unexpected {:?}", other),
    }
}

#[test]
fn stream_events_to_wire() {
    match stream_event_to_wire(StreamEvent::Stdout("a".to_string()), 0) {
        ExecStreamEvent::Stdout { chunk } => assert_eq!(chunk, "a"),
        other => panic!("unexpected {:?}", other),
    }
    match stream_event_to_wire(StreamEvent::Exit(0), 42) {
        ExecStreamEvent::Exit { exit_code, duration_ms } => {
            assert_eq!(exit_code, 0);
            assert_eq!(duration_ms, 42);
        }
        other => panic!("unexpected {:?}", other),
    }
    let timeout = stream_event_to_wire(StreamEvent::Timeout, 1);
    assert_eq!(event_name(&timeout), "error");
    assert!(is_final_event(&timeout));
    match timeout {
        ExecStreamEvent::Error { error } => assert_eq!(error, "Process exceeded timeout"),
        other => panic!("unexpected {:?}", other),
    }
}

#[test]
fn event_names_and_final_events() {
    let out = ExecStreamEvent::Stdout { chunk: String::new() };
    let err = ExecStreamEvent::Stderr { chunk: String::new() };
    let exit = ExecStreamEvent::Exit { exit_code: 0, duration_ms: 0 };
    assert_eq!(event_name(&out), "stdout");
    assert_eq!(event_name(&err), "stderr");
    assert_eq!(event_name(&exit), "exit");
    assert!(!is_final_event(&out));
    assert!(!is_final_event(&err));
    assert!(is_final_event(&exit));
}

#[test]
fn start_errors_become_error_events() {
    match exec_error_to_wire(ExecError::NotSupported("no".to_string())) {
        ExecStreamEvent::Error { error } => assert_eq!(error, "no"),
        other => panic!("unexpected {:?}", other),
    }
}
