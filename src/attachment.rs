//! The attachment protocol: what an attachment does with each frame from
//! its client and each item from the session's output fan-out. The caller
//! owns the byte channel and the tasks, records every inbound frame as
//! activity on the session, and performs the returned action.

use vstd::prelude::*;

use crate::types::{Signal, WsControlMessage, WsServerMessage};

verus! {

/// A frame received from the client, with text frames already parsed.
#[derive(Debug)]
pub enum ClientFrame {
    /// Raw terminal input.
    Binary(Vec<u8>),
    /// A control message; `None` when the text was malformed or its `type`
    /// is not recognised.
    Text(Option<WsControlMessage>),
    /// A protocol-level ping or pong, answered by the channel itself.
    Keepalive,
    /// The client closed the channel.
    Close,
    /// The channel failed.
    Error,
}

/// What the attachment does with a client frame.
#[derive(Debug)]
pub enum ClientAction {
    /// Enqueue the bytes, unchanged, on the session's input channel; if
    /// that fails the attachment ends.
    Forward(Vec<u8>),
    /// Resize the session's terminal.
    Resize { cols: u16, rows: u16 },
    /// Deliver the signal to the session.
    Signal(Signal),
    /// Answer with this message.
    Reply(WsServerMessage),
    /// Nothing to do; the attachment stays open.
    Ignore,
    /// The attachment ends: mark the session detached.
    Detach,
}

/// The signal that a control message names, if it names one.
pub open spec fn signal_named(name: Seq<char>) -> Option<Signal> {
    if name == "ctrl_c"@ {
        Some(Signal::CtrlC)
    } else if name == "ctrl_break"@ {
        Some(Signal::CtrlBreak)
    } else if name == "terminate"@ {
        Some(Signal::Terminate)
    } else {
        None
    }
}

/// Whether two strings hold the same characters.
pub fn str_equal(a: &str, b: &str) -> (r: bool)
    ensures
        r == (a@ == b@),
{
    let n = a.unicode_len();
    if n != b.unicode_len() {
        return false;
    }
    let mut i: usize = 0;
    while i < n
        invariant
            n == a@.len(),
            n == b@.len(),
            i <= n,
            forall|j: int| 0 <= j < i ==> a@[j] == b@[j],
        decreases n - i,
    {
        if a.get_char(i) != b.get_char(i) {
            return false;
        }
        i = i + 1;
    }
    proof {
        assert(a@ =~= b@);
    }
    true
}

/// Reads a signal name: `ctrl_c`, `ctrl_break` or `terminate`.
pub fn parse_signal_name(name: &str) -> (r: Option<Signal>)
    ensures
        r == signal_named(name@),
{
    if str_equal(name, "ctrl_c") {
        Some(Signal::CtrlC)
    } else if str_equal(name, "ctrl_break") {
        Some(Signal::CtrlBreak)
    } else if str_equal(name, "terminate") {
        Some(Signal::Terminate)
    } else {
        None
    }
}

/// Whether the action ends the attachment.
pub open spec fn ends_attachment(a: ClientAction) -> bool {
    a is Detach
}

/// The bytes that an action puts on the session's input channel.
pub open spec fn forwarded_bytes(a: ClientAction) -> Seq<u8> {
    match a {
        ClientAction::Forward(b) => b@,
        _ => Seq::empty(),
    }
}

/// The bytes that a client frame carries as terminal input.
pub open spec fn frame_bytes(f: ClientFrame) -> Seq<u8> {
    match f {
        ClientFrame::Binary(b) => b@,
        _ => Seq::empty(),
    }
}

/// Whether a client frame ends the attachment.
pub open spec fn frame_ends(f: ClientFrame) -> bool {
    f is Close || f is Error
}

/// The action for a client frame.
pub open spec fn client_action_for(f: ClientFrame, a: ClientAction) -> bool {
    match f {
        ClientFrame::Binary(b) => a matches ClientAction::Forward(d) && d@ == b@,
        ClientFrame::Text(None) => a is Ignore,
        ClientFrame::Text(Some(WsControlMessage::Resize { cols, rows })) => a == (ClientAction::Resize { cols, rows }),
        ClientFrame::Text(Some(WsControlMessage::Signal { name })) => match signal_named(name@) {
            Some(sig) => a == ClientAction::Signal(sig),
            None => a is Ignore,
        },
        ClientFrame::Text(Some(WsControlMessage::Ping { t })) => a == ClientAction::Reply(WsServerMessage::Pong { t }),
        ClientFrame::Keepalive => a is Ignore,
        ClientFrame::Close => a is Detach,
        ClientFrame::Error => a is Detach,
    }
}

/// Decides what the attachment does with a frame from its client: binary
/// input is forwarded verbatim, control messages become a resize, a signal
/// or a pong, unrecognised control messages are ignored, and a close or an
/// error ends the attachment.
pub fn on_client_frame(frame: ClientFrame) -> (r: ClientAction)
    ensures
        client_action_for(frame, r),
{
    match frame {
        ClientFrame::Binary(b) => ClientAction::Forward(b),
        ClientFrame::Text(None) => ClientAction::Ignore,
        ClientFrame::Text(Some(msg)) => match msg {
            WsControlMessage::Resize { cols, rows } => ClientAction::Resize { cols, rows },
            WsControlMessage::Signal { name } => match parse_signal_name(name.as_str()) {
                Some(sig) => ClientAction::Signal(sig),
                None => ClientAction::Ignore,
            },
            WsControlMessage::Ping { t } => ClientAction::Reply(WsServerMessage::Pong { t }),
        },
        ClientFrame::Keepalive => ClientAction::Ignore,
        ClientFrame::Close => ClientAction::Detach,
        ClientFrame::Error => ClientAction::Detach,
    }
}

/// An item from the session's output fan-out.
#[derive(Debug)]
pub enum OutputItem {
    /// A chunk of shell output.
    Chunk(Vec<u8>),
    /// The subscriber fell behind and this many chunks were skipped.
    Lagged(u64),
    /// The fan-out closed: the shell has exited.
    Closed,
}

/// What the attachment does with an output item.
#[derive(Debug)]
pub enum OutputAction {
    /// Send the bytes, unchanged, as one binary frame.
    SendBinary(Vec<u8>),
    /// Continue with the next available chunk.
    Skip,
    /// Send a close frame with this code and reason, and stop.
    Close { code: u16, reason: String },
}

/// Decides what the attachment does with an item from the output fan-out:
/// a chunk goes out verbatim as a binary frame, a lag is passed over, and
/// the end of the shell closes the attachment with code 1000.
pub fn on_output(item: OutputItem) -> (r: OutputAction)
    ensures
        match item {
            OutputItem::Chunk(b) => r matches OutputAction::SendBinary(d) && d@ == b@,
            OutputItem::Lagged(_) => r is Skip,
            OutputItem::Closed => r matches OutputAction::Close { code, reason } && code == 1000 && reason@ == "Session ended"@,
        },
{
    match item {
        OutputItem::Chunk(b) => OutputAction::SendBinary(b),
        OutputItem::Lagged(_) => OutputAction::Skip,
        OutputItem::Closed => OutputAction::Close { code: 1000, reason: String::from_str("Session ended") },
    }
}

/// The terminal input that the client sends until its attachment ends:
/// the binary payloads, in order, up to the first close or error.
pub open spec fn client_input(frames: Seq<ClientFrame>) -> Seq<u8>
    decreases frames.len(),
{
    if frames.len() == 0 {
        Seq::empty()
    } else if frame_ends(frames[0]) {
        Seq::empty()
    } else {
        frame_bytes(frames[0]) + client_input(frames.drop_first())
    }
}

/// The bytes enqueued for the shell by a run of actions, up to the one that
/// ends the attachment.
pub open spec fn shell_input(actions: Seq<ClientAction>) -> Seq<u8>
    decreases actions.len(),
{
    if actions.len() == 0 {
        Seq::empty()
    } else if ends_attachment(actions[0]) {
        Seq::empty()
    } else {
        forwarded_bytes(actions[0]) + shell_input(actions.drop_first())
    }
}

/// Every byte that the client writes in binary frames reaches the shell's
/// input, in order, unless the attachment closes first: the actions decided
/// for a run of frames enqueue exactly the client's input.
pub proof fn lemma_input_forwarded_in_order(frames: Seq<ClientFrame>, actions: Seq<ClientAction>)
    requires
        frames.len() == actions.len(),
        forall|i: int| 0 <= i < frames.len() ==> client_action_for(#[trigger] frames[i], actions[i]),
    ensures
        shell_input(actions) == client_input(frames),
    decreases frames.len(),
{
    if frames.len() > 0 {
        assert(client_action_for(frames[0], actions[0]));
        lemma_input_forwarded_in_order(frames.drop_first(), actions.drop_first());
        assert(frame_ends(frames[0]) == ends_attachment(actions[0]));
        assert(!frame_ends(frames[0]) ==> forwarded_bytes(actions[0]) == frame_bytes(frames[0]));
    }
}

/// A zero-byte binary frame is forwarded as a zero-byte input.
pub proof fn lemma_empty_input_forwarded(b: Vec<u8>, a: ClientAction)
    requires
        b@.len() == 0,
        client_action_for(ClientFrame::Binary(b), a),
    ensures
        a matches ClientAction::Forward(d) && d@.len() == 0,
        !ends_attachment(a),
{
}

/// A control message of unknown type is ignored and the attachment stays open.
pub proof fn lemma_unknown_control_ignored(a: ClientAction)
    requires
        client_action_for(ClientFrame::Text(None), a),
    ensures
        a is Ignore,
        !ends_attachment(a),
{
}

/// The bytes that a run of fan-out items carries, up to the close.
pub open spec fn produced_output(items: Seq<OutputItem>) -> Seq<u8>
    decreases items.len(),
{
    if items.len() == 0 {
        Seq::empty()
    } else {
        match items[0] {
            OutputItem::Chunk(b) => b@ + produced_output(items.drop_first()),
            OutputItem::Lagged(_) => produced_output(items.drop_first()),
            OutputItem::Closed => Seq::empty(),
        }
    }
}

/// The action decided for an output item.
pub open spec fn output_action_for(item: OutputItem, a: OutputAction) -> bool {
    match item {
        OutputItem::Chunk(b) => a matches OutputAction::SendBinary(d) && d@ == b@,
        OutputItem::Lagged(_) => a is Skip,
        OutputItem::Closed => a matches OutputAction::Close { code, .. } && code == 1000,
    }
}

/// The bytes of the binary frames that a run of actions sends, up to the close.
pub open spec fn sent_output(actions: Seq<OutputAction>) -> Seq<u8>
    decreases actions.len(),
{
    if actions.len() == 0 {
        Seq::empty()
    } else {
        match actions[0] {
            OutputAction::SendBinary(b) => b@ + sent_output(actions.drop_first()),
            OutputAction::Skip => sent_output(actions.drop_first()),
            OutputAction::Close { .. } => Seq::empty(),
        }
    }
}

/// Shell output that reaches a live attachment's subscriber appears
/// verbatim and in order in the attachment's binary frames.
pub proof fn lemma_output_delivered_verbatim(items: Seq<OutputItem>, actions: Seq<OutputAction>)
    requires
        items.len() == actions.len(),
        forall|i: int| 0 <= i < items.len() ==> output_action_for(#[trigger] items[i], actions[i]),
    ensures
        sent_output(actions) == produced_output(items),
    decreases items.len(),
{
    if items.len() > 0 {
        assert(output_action_for(items[0], actions[0]));
        lemma_output_delivered_verbatim(items.drop_first(), actions.drop_first());
    }
}

} // verus!
