use winpe_agent::attachment::{on_client_frame, on_output, parse_signal_name, ClientAction, ClientFrame, OutputAction, OutputItem};
use winpe_agent::types::{Signal, WsControlMessage, WsServerMessage};

#[test]
fn binary_input_is_forwarded_verbatim() {
    match on_client_frame(ClientFrame::Binary(vec![1, 2, 3])) {
        ClientAction::Forward(b) => assert_eq!(b, vec![1, 2, 3]),
        other => panic!("unexpected {:?}", other),
    }
}

#[test]
fn zero_byte_input_is_forwarded() {
    match on_client_frame(ClientFrame::Binary(vec![])) {
        ClientAction::Forward(b) => assert!(b.is_empty()),
        other => panic!("unexpected {:?}", other),
    }
}

#[test]
fn unknown_control_frame_is_ignored() {
    assert!(matches!(on_client_frame(ClientFrame::Text(None)), ClientAction::Ignore));
}

#[test]
fn resize_control_frame() {
    let a = on_client_frame(ClientFrame::Text(Some(WsControlMessage::Resize { cols: 100, rows: 40 })));
    assert!(matches!(a, ClientAction::Resize { cols: 100, rows: 40 }));
}

#[test]
fn signal_control_frames() {
    let a = on_client_frame(ClientFrame::Text(Some(WsControlMessage::Signal { name: "ctrl_c".to_string() })));
    assert!(matches!(a, ClientAction::Signal(Signal::CtrlC)));
    let b = on_client_frame(ClientFrame::Text(Some(WsControlMessage::Signal { name: "bogus".to_string() })));
    assert!(matches!(b, ClientAction::Ignore));
}

#[test]
fn signal_names() {
    assert_eq!(parse_signal_name("ctrl_c"), Some(Signal::CtrlC));
    assert_eq!(parse_signal_name("ctrl_break"), Some(Signal::CtrlBreak));
    assert_eq!(parse_signal_name("terminate"), Some(Signal::Terminate));
    assert_eq!(parse_signal_name("Terminate"), None);
    assert_eq!(parse_signal_name(""), None);
}

#[test]
fn ping_is_answered_with_pong() {
    let a = on_client_frame(ClientFrame::Text(Some(WsControlMessage::Ping { t: 77 })));
    assert!(matches!(a, ClientAction::Reply(WsServerMessage::Pong { t: 77 })));
}

#[test]
fn close_and_error_detach() {
    assert!(matches!(on_client_frame(ClientFrame::Close), ClientAction::Detach));
    assert!(matches!(on_client_frame(ClientFrame::Error), ClientAction::Detach));
    assert!(matches!(on_client_frame(ClientFrame::Keepalive), ClientAction::Ignore));
}

#[test]
fn input_stream_arrives_in_order() {
    let frames = vec![
        ClientFrame::Binary(b"di".to_vec()),
        ClientFrame::Text(None),
        ClientFrame::Binary(b"r\r".to_vec()),
        ClientFrame::Close,
        ClientFrame::Binary(b"late".to_vec()),
    ];
    let mut forwarded = Vec::new();
    for f in frames {
        match on_client_frame(f) {
            ClientAction::Forward(b) => forwarded.extend(b),
            ClientAction::Detach => break,
            _ => {}
        }
    }
    assert_eq!(forwarded, b"dir\r".to_vec());
}

#[test]
fn output_chunks_are_sent_verbatim_then_closed() {
    let items = vec![
        OutputItem::Chunk(b"C:\\>".to_vec()),
        OutputItem::Lagged(3),
        OutputItem::Chunk(vec![]),
        OutputItem::Chunk(b"ok".to_vec()),
        OutputItem::Closed,
    ];
    let mut sent = Vec::new();
    let mut close = None;
    for it in items {
        match on_output(it) {
            OutputAction::SendBinary(b) => sent.extend(b),
            OutputAction::Skip => {}
            OutputAction::Close { code, reason } => {
                close = Some((code, reason));
                break;
            }
        }
    }
    assert_eq!(sent, b"C:\\>ok".to_vec());
    assert_eq!(close, Some((1000, "Session ended".to_string())));
}
