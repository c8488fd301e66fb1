use winpe_agent::session::{
    attach_close_frame, conpty_unsupported_error, is_reap_due, native_status_error, session_error_response,
    AttachOutcome, SendHandle, SendablePty, Session, SessionError, SessionManager, SignalAction,
};
use winpe_agent::types::{ErrorCode, SessionCreateRequest, SessionInit, SessionState, Shell, Signal};

fn request() -> SessionCreateRequest {
    SessionCreateRequest {
        shell: Shell::Cmd,
        cwd: None,
        env: vec![],
        cols: 80,
        rows: 24,
        idle_timeout_sec: 60,
        init: SessionInit { force_utf8: true },
    }
}

const T0: i64 = 1_700_000_000_000;

fn manager_with_session() -> (SessionManager, String) {
    let mut m = SessionManager::new();
    let resp = m
        .create_session(&request(), 4242, SendHandle::from_handle(7), SendablePty::new(9), T0)
        .unwrap();
    (m, resp.id)
}

#[test]
fn create_reports_identifier_path_and_instant() {
    let mut m = SessionManager::new();
    let resp = m
        .create_session(&request(), 4242, SendHandle::from_handle(7), SendablePty::new(9), T0)
        .unwrap();
    assert_eq!(resp.id.len(), 26);
    assert!(resp.id.chars().all(|c| "0123456789ABCDEFGHJKMNPQRSTVWXYZ".contains(c)));
    assert_eq!(resp.ws_url, format!("/api/v1/sessions/{}/ws", resp.id));
    assert_eq!(resp.created_at, "2023-11-14T22:13:20+00:00");
    assert!(m.session_exists(&resp.id));
}

#[test]
fn two_sessions_get_distinct_identifiers() {
    let mut m = SessionManager::new();
    let a = m.create_session(&request(), 1, SendHandle(1), SendablePty::new(1), T0).unwrap();
    let b = m.create_session(&request(), 2, SendHandle(2), SendablePty::new(2), T0).unwrap();
    assert_ne!(a.id, b.id);
    assert_eq!(m.list_sessions().len(), 2);
}

#[test]
fn register_refuses_an_identifier_in_use() {
    let mut m = SessionManager::new();
    let id = "01HZZZZZZZZZZZZZZZZZZZZZZZ".to_string();
    assert!(m.register_session(id.clone(), &request(), 1, SendHandle(1), SendablePty::new(1), T0).is_ok());
    let again = m.register_session(id.clone(), &request(), 2, SendHandle(2), SendablePty::new(2), T0);
    assert!(matches!(again, Err(SessionError::Internal(_))));
    assert_eq!(m.get_session(&id).unwrap().pid, 1);
}

#[test]
fn new_session_is_running_and_unattached() {
    let (m, id) = manager_with_session();
    let info = m.get_session(&id).unwrap();
    assert_eq!(info.id, id);
    assert_eq!(info.state, SessionState::Running);
    assert!(!info.attached);
    assert_eq!((info.cols, info.rows), (80, 24));
    assert_eq!(info.pid, 4242);
    assert_eq!(info.shell, Shell::Cmd);
    assert_eq!(info.created_at, info.last_activity_at);
}

#[test]
fn delete_twice_reports_not_found() {
    let (mut m, id) = manager_with_session();
    let record = m.terminate_session(&id).unwrap();
    assert_eq!(record.process_handle, SendHandle(7));
    assert_eq!(record.pty.handle(), 9);
    assert!(m.get_session(&id).is_none());
    let second = m.terminate_session(&id);
    assert!(matches!(second, Err(SessionError::NotFound)));
    let (status, err) = session_error_response(second.unwrap_err());
    assert_eq!(status, 404);
    assert_eq!(err.error.code, ErrorCode::NotFound);
}

#[test]
fn second_attachment_is_refused_with_1008() {
    let (mut m, id) = manager_with_session();
    assert_eq!(m.attach(&id, T0 + 1), AttachOutcome::Attached);
    assert!(m.get_session(&id).unwrap().attached);
    let second = m.attach(&id, T0 + 2);
    assert_eq!(second, AttachOutcome::AlreadyAttached);
    let (code, reason) = attach_close_frame(second).unwrap();
    assert_eq!(code, 1008);
    assert_eq!(reason, "Session already attached");
    m.detach(&id);
    assert_eq!(m.attach(&id, T0 + 3), AttachOutcome::Attached);
}

#[test]
fn attach_to_unknown_session_closes_with_1011() {
    let mut m = SessionManager::new();
    let outcome = m.attach("nope", T0);
    assert_eq!(outcome, AttachOutcome::NotFound);
    let (code, reason) = attach_close_frame(outcome).unwrap();
    assert_eq!(code, 1011);
    assert_eq!(reason, "Session not found");
    assert!(attach_close_frame(AttachOutcome::Attached).is_none());
}

#[test]
fn exited_shell_closes_next_attachment_with_1000() {
    let (mut m, id) = manager_with_session();
    m.mark_exited(&id);
    let outcome = m.attach(&id, T0 + 5);
    assert_eq!(outcome, AttachOutcome::Ended);
    let (code, reason) = attach_close_frame(outcome).unwrap();
    assert_eq!(code, 1000);
    assert_eq!(reason, "Session ended");
    assert_eq!(m.get_session(&id).unwrap().state, SessionState::Exited);
}

#[test]
fn last_activity_never_moves_back() {
    let (mut m, id) = manager_with_session();
    m.touch(&id, T0 + 10_000);
    let later = m.get_session(&id).unwrap().last_activity_at;
    m.touch(&id, T0 + 5_000);
    assert_eq!(m.get_session(&id).unwrap().last_activity_at, later);
    assert_eq!(later, "2023-11-14T22:13:30+00:00");
}

#[test]
fn resize_round_trip() {
    let (mut m, id) = manager_with_session();
    assert_eq!(m.pty_of(&id).unwrap().handle(), 9);
    assert!(m.resize_session(&id, 100, 40, Ok(())).is_ok());
    let info = m.get_session(&id).unwrap();
    assert_eq!((info.cols, info.rows), (100, 40));
}

#[test]
fn failed_resize_keeps_dimensions() {
    let (mut m, id) = manager_with_session();
    let r = m.resize_session(&id, 100, 40, Err("boom".to_string()));
    match r {
        Err(SessionError::Internal(msg)) => assert_eq!(msg, "boom"),
        other => panic!("unexpected {:?}", other),
    }
    let info = m.get_session(&id).unwrap();
    assert_eq!((info.cols, info.rows), (80, 24));
    assert!(matches!(m.resize_session("nope", 1, 1, Ok(())), Err(SessionError::NotFound)));
}

#[test]
fn signals_map_to_actions() {
    let (m, id) = manager_with_session();
    match m.send_signal(&id, Signal::CtrlC).unwrap() {
        SignalAction::Input(b) => assert_eq!(b, vec![0x03]),
        other => panic!("unexpected {:?}", other),
    }
    match m.send_signal(&id, Signal::CtrlBreak).unwrap() {
        SignalAction::Input(b) => assert_eq!(b, vec![0x03]),
        other => panic!("unexpected {:?}", other),
    }
    match m.send_signal(&id, Signal::Terminate).unwrap() {
        SignalAction::TerminateProcess(h) => assert_eq!(h.as_handle(), 7),
        other => panic!("unexpected {:?}", other),
    }
    assert!(matches!(m.send_signal("nope", Signal::CtrlC), Err(SessionError::NotFound)));
}

#[test]
fn reaper_removes_idle_unattached_sessions_only() {
    let mut m = SessionManager::new();
    let idle = m.create_session(&request(), 1, SendHandle(1), SendablePty::new(1), T0).unwrap().id;
    let busy = m.create_session(&request(), 2, SendHandle(2), SendablePty::new(2), T0).unwrap().id;
    let attached = m.create_session(&request(), 3, SendHandle(3), SendablePty::new(3), T0).unwrap().id;
    m.touch(&busy, T0 + 60_000);
    assert_eq!(m.attach(&attached, T0), AttachOutcome::Attached);
    let removed = m.cleanup_idle_sessions(T0 + 61_000);
    assert_eq!(removed.len(), 1);
    assert_eq!(removed[0].id, idle);
    assert!(!m.session_exists(&idle));
    assert!(m.session_exists(&busy));
    assert!(m.session_exists(&attached));
}

#[test]
fn idle_session_reaped_within_two_intervals() {
    let (mut m, id) = manager_with_session();
    // idle timeout is 60 s; the session becomes idle at T0 + 60 s
    let becomes_idle = T0 + 60_000;
    let first_pass = m.cleanup_idle_sessions(becomes_idle);
    assert!(first_pass.is_empty());
    let second_pass = m.cleanup_idle_sessions(becomes_idle + 30_000);
    assert_eq!(second_pass.len(), 1);
    assert_eq!(second_pass[0].id, id);
}

#[test]
fn reap_threshold_is_just_beyond_timeout() {
    let s = Session {
        id: "x".to_string(),
        shell: Shell::Cmd,
        pid: 1,
        state: SessionState::Running,
        attached: false,
        cols: 80,
        rows: 24,
        created_at_ms: 0,
        last_activity_ms: 1_000,
        idle_timeout_sec: 10,
        process_handle: SendHandle(1),
        pty: SendablePty::new(1),
    };
    assert!(!is_reap_due(&s, 11_000));
    assert!(is_reap_due(&s, 11_001));
    assert!(!is_reap_due(&s, 0));
}

#[test]
fn list_reports_every_session() {
    let (mut m, id) = manager_with_session();
    let infos = m.list_sessions();
    assert_eq!(infos.len(), 1);
    assert_eq!(infos[0].id, id);
    m.terminate_session(&id).unwrap();
    assert!(m.list_sessions().is_empty());
}

#[test]
fn session_for_attachment_is_a_copy_of_the_record() {
    let (m, id) = manager_with_session();
    let s = m.get_session_for_ws(&id).unwrap();
    assert_eq!(s.pid, 4242);
    assert!(m.get_session_for_ws("nope").is_none());
}

#[test]
fn session_error_statuses() {
    let (status, err) = session_error_response(conpty_unsupported_error());
    assert_eq!(status, 501);
    assert_eq!(err.error.code, ErrorCode::NotSupported);
    assert_eq!(err.error.message, "ConPTY is only available on Windows");
    let (status, err) = session_error_response(native_status_error("CreatePseudoConsole", 0x8007_0057));
    assert_eq!(status, 500);
    assert_eq!(err.error.code, ErrorCode::Internal);
    assert_eq!(err.error.message, "CreatePseudoConsole failed: 0x80070057");
}

#[test]
fn register_refuses_handles_already_held() {
    let mut m = SessionManager::new();
    assert!(m.create_session(&request(), 1, SendHandle(10), SendablePty::new(20), T0).is_ok());
    let same_process = m.create_session(&request(), 2, SendHandle(10), SendablePty::new(21), T0);
    assert!(matches!(same_process, Err(SessionError::Internal(_))));
    let same_pty = m.create_session(&request(), 3, SendHandle(11), SendablePty::new(20), T0);
    assert!(matches!(same_pty, Err(SessionError::Internal(_))));
    assert_eq!(m.list_sessions().len(), 1);
    assert!(m.create_session(&request(), 4, SendHandle(11), SendablePty::new(21), T0).is_ok());
}

#[test]
fn created_session_records_the_request() {
    let mut m = SessionManager::new();
    let mut req = request();
    req.shell = Shell::Powershell;
    req.cols = 132;
    req.rows = 50;
    let resp = m.create_session(&req, 9, SendHandle(1), SendablePty::new(2), T0).unwrap();
    let info = m.get_session(&resp.id).unwrap();
    assert_eq!(info.shell, Shell::Powershell);
    assert_eq!((info.cols, info.rows), (132, 50));
    assert_eq!(info.created_at, resp.created_at);
    assert_eq!(info.last_activity_at, resp.created_at);
    assert_eq!(m.get_session_for_ws(&resp.id).unwrap().idle_timeout_sec, 60);
}
