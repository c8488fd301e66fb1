//! Input translation of the interactive terminal client: keys to the bytes
//! a terminal sends, and shell names given on the command line.

use vstd::prelude::*;
use vstd::utf8::{encode_scalar, encode_utf8};

use crate::types::{ExecRequest, SessionCreateRequest, SessionInit, Shell};

verus! {

/// A key as the terminal reports it.
#[derive(Debug, Clone, Copy, PartialEq, Eq, Structural)]
pub enum KeyCode {
    Backspace,
    Enter,
    Left,
    Right,
    Up,
    Down,
    Home,
    End,
    PageUp,
    PageDown,
    Tab,
    BackTab,
    Delete,
    Insert,
    /// A function key, F1 to F255.
    F(u8),
    Char(char),
    Null,
    Esc,
    CapsLock,
    ScrollLock,
    NumLock,
    PrintScreen,
    Pause,
    Menu,
    KeypadBegin,
    /// A media key.
    Media,
    /// A modifier key pressed on its own.
    Modifier,
}

/// The escape sequence `ESC [ <n> ~`, with `n` below 100 in decimal.
pub open spec fn tilde_sequence(n: nat) -> Seq<u8> {
    if n < 10 {
        seq![0x1bu8, 0x5bu8, (0x30 + n) as u8, 0x7eu8]
    } else {
        seq![0x1bu8, 0x5bu8, (0x30 + n / 10) as u8, (0x30 + n % 10) as u8, 0x7eu8]
    }
}

/// The bytes a terminal sends for a key; empty for keys that send nothing.
pub open spec fn key_bytes(code: KeyCode) -> Seq<u8> {
    match code {
        KeyCode::Char(c) => encode_utf8(seq![c]),
        KeyCode::Enter => seq![0x0du8],
        KeyCode::Backspace => seq![0x7fu8],
        KeyCode::Tab => seq![0x09u8],
        KeyCode::Esc => seq![0x1bu8],
        KeyCode::Up => seq![0x1bu8, 0x5bu8, 0x41u8],
        KeyCode::Down => seq![0x1bu8, 0x5bu8, 0x42u8],
        KeyCode::Right => seq![0x1bu8, 0x5bu8, 0x43u8],
        KeyCode::Left => seq![0x1bu8, 0x5bu8, 0x44u8],
        KeyCode::Home => seq![0x1bu8, 0x5bu8, 0x48u8],
        KeyCode::End => seq![0x1bu8, 0x5bu8, 0x46u8],
        KeyCode::PageUp => tilde_sequence(5),
        KeyCode::PageDown => tilde_sequence(6),
        KeyCode::Insert => tilde_sequence(2),
        KeyCode::Delete => tilde_sequence(3),
        KeyCode::F(n) => {
            if n == 1 {
                seq![0x1bu8, 0x4fu8, 0x50u8]
            } else if n == 2 {
                seq![0x1bu8, 0x4fu8, 0x51u8]
            } else if n == 3 {
                seq![0x1bu8, 0x4fu8, 0x52u8]
            } else if n == 4 {
                seq![0x1bu8, 0x4fu8, 0x53u8]
            } else if n == 5 {
                tilde_sequence(15)
            } else if 6 <= n <= 10 {
                tilde_sequence(n as nat + 11)
            } else if 11 <= n <= 24 {
                tilde_sequence(n as nat + 12)
            } else {
                Seq::empty()
            }
        },
        KeyCode::Null => seq![0x00u8],
        _ => Seq::empty(),
    }
}

/// The UTF-8 encoding of one character.
pub fn char_utf8(c: char) -> (r: Vec<u8>)
    ensures
        r@ == encode_utf8(seq![c]),
{
    let v = c as u32;
    let mut out: Vec<u8> = Vec::new();
    if v <= 0x7F {
        out.push(#[verifier::truncate] ((v & 0x7F) as u8));
    } else if v <= 0x7FF {
        out.push(0xC0 | #[verifier::truncate] (((v >> 6) & 0x1F) as u8));
        out.push(0x80 | (v & 0x3F) as u8);
    } else if v <= 0xFFFF {
        out.push(0xE0 | ((v >> 12) & 0x0F) as u8);
        out.push(0x80 | ((v >> 6) & 0x3F) as u8);
        out.push(0x80 | (v & 0x3F) as u8);
    } else {
        out.push(0xF0 | ((v >> 18) & 0x7) as u8);
        out.push(0x80 | ((v >> 12) & 0x3F) as u8);
        out.push(0x80 | ((v >> 6) & 0x3F) as u8);
        out.push(0x80 | (v & 0x3F) as u8);
    }
    proof {
        assert(!(0xD800 <= v <= 0xDFFF));
        assert(seq![c].drop_first() =~= Seq::<char>::empty());
        assert(seq![c][0] == c);
        assert(encode_utf8(seq![c]) == encode_scalar(v) + encode_utf8(Seq::<char>::empty()));
        assert(out@ =~= encode_scalar(v));
        assert(out@ =~= encode_utf8(seq![c]));
    }
    out
}

fn tilde_bytes(n: u8) -> (r: Vec<u8>)
    requires
        n < 100,
    ensures
        r@ == tilde_sequence(n as nat),
{
    let mut out: Vec<u8> = Vec::new();
    out.push(0x1b);
    out.push(0x5b);
    if n >= 10 {
        out.push(0x30 + n / 10);
    }
    out.push(0x30 + n % 10);
    out.push(0x7e);
    proof {
        assert(out@ =~= tilde_sequence(n as nat));
    }
    out
}

fn bytes3(a: u8, b: u8, c: u8) -> (r: Vec<u8>)
    ensures
        r@ == seq![a, b, c],
{
    let mut out: Vec<u8> = Vec::new();
    out.push(a);
    out.push(b);
    out.push(c);
    proof {
        assert(out@ =~= seq![a, b, c]);
    }
    out
}

fn bytes1(a: u8) -> (r: Vec<u8>)
    ensures
        r@ == seq![a],
{
    let mut out: Vec<u8> = Vec::new();
    out.push(a);
    proof {
        assert(out@ =~= seq![a]);
    }
    out
}

/// Converts a key to the bytes a terminal sends for it: the character's
/// UTF-8 encoding, a control byte, or an ANSI escape sequence; nothing for
/// keys that send nothing.
pub fn keycode_to_bytes(code: KeyCode) -> (r: Vec<u8>)
    ensures
        r@ == key_bytes(code),
{
    match code {
        KeyCode::Char(c) => char_utf8(c),
        KeyCode::Enter => bytes1(0x0d),
        KeyCode::Backspace => bytes1(0x7f),
        KeyCode::Tab => bytes1(0x09),
        KeyCode::Esc => bytes1(0x1b),
        KeyCode::Up => bytes3(0x1b, 0x5b, 0x41),
        KeyCode::Down => bytes3(0x1b, 0x5b, 0x42),
        KeyCode::Right => bytes3(0x1b, 0x5b, 0x43),
        KeyCode::Left => bytes3(0x1b, 0x5b, 0x44),
        KeyCode::Home => bytes3(0x1b, 0x5b, 0x48),
        KeyCode::End => bytes3(0x1b, 0x5b, 0x46),
        KeyCode::PageUp => tilde_bytes(5),
        KeyCode::PageDown => tilde_bytes(6),
        KeyCode::Insert => tilde_bytes(2),
        KeyCode::Delete => tilde_bytes(3),
        KeyCode::F(n) => {
            if n == 1 {
                bytes3(0x1b, 0x4f, 0x50)
            } else if n == 2 {
                bytes3(0x1b, 0x4f, 0x51)
            } else if n == 3 {
                bytes3(0x1b, 0x4f, 0x52)
            } else if n == 4 {
                bytes3(0x1b, 0x4f, 0x53)
            } else if n == 5 {
                tilde_bytes(15)
            } else if 6 <= n && n <= 10 {
                tilde_bytes(n + 11)
            } else if 11 <= n && n <= 24 {
                tilde_bytes(n + 12)
            } else {
                Vec::new()
            }
        },
        KeyCode::Null => bytes1(0x00),
        _ => Vec::new(),
    }
}

/// A character with ASCII upper-case letters made lower-case.
pub open spec fn ascii_lower(v: u32) -> u32 {
    if 0x41 <= v <= 0x5a {
        (v + 0x20) as u32
    } else {
        v
    }
}

/// The control byte that Ctrl with a key sends: the low byte of the
/// lower-cased character, counted from the one before `a`, when that comes
/// to 26 or less (Ctrl+A is 1, Ctrl+Z is 26).
pub open spec fn ctrl_byte_of(c: char) -> Option<u8> {
    let b = ((ascii_lower(c as u32) % 256) + 256 - 96) % 256;
    if b <= 26 {
        Some(b as u8)
    } else {
        None
    }
}

/// Computes the control byte for Ctrl with the character, if it has one.
pub fn ctrl_key_byte(c: char) -> (r: Option<u8>)
    ensures
        r == ctrl_byte_of(c),
{
    let v = c as u32;
    let lower: u32 = if 0x41 <= v && v <= 0x5a { v + 0x20 } else { v };
    let b: u32 = ((lower % 256) + 160) % 256;
    if b <= 26 {
        Some(b as u8)
    } else {
        None
    }
}

/// What `str::to_lowercase` makes of a text.
pub uninterp spec fn lower_of(s: Seq<char>) -> Seq<char>;

/// Relies on `str::to_lowercase`: the result depends on the characters alone.
#[verifier::external_body]
fn lowercase(s: &str) -> (r: String)
    ensures
        r@ == lower_of(s@),
{
    s.to_lowercase()
}

/// The shell that a lower-case name stands for: `cmd`, or `powershell` and
/// its short form `pwsh`.
pub open spec fn shell_named(name: Seq<char>) -> Option<Shell> {
    if name == "cmd"@ {
        Some(Shell::Cmd)
    } else if name == "powershell"@ || name == "pwsh"@ {
        Some(Shell::Powershell)
    } else {
        None
    }
}

/// Reads a lower-case shell name; an unknown name is an error that names it.
pub fn shell_from_lowercase(name: &str) -> (r: Result<Shell, String>)
    ensures
        shell_named(name@) matches Some(sh) ==> r == Ok::<Shell, String>(sh),
        shell_named(name@) is None ==> (r matches Err(m) && m@ == "Unknown shell: "@ + name@),
{
    if crate::attachment::str_equal(name, "cmd") {
        Ok(Shell::Cmd)
    } else if crate::attachment::str_equal(name, "powershell") || crate::attachment::str_equal(name, "pwsh") {
        Ok(Shell::Powershell)
    } else {
        let mut m = String::from_str("Unknown shell: ");
        m.append(name);
        Err(m)
    }
}

/// Reads a shell name given on the command line, in any case.
pub fn parse_shell_name(name: &str) -> (r: Result<Shell, String>)
    ensures
        shell_named(lower_of(name@)) matches Some(sh) ==> r == Ok::<Shell, String>(sh),
        shell_named(lower_of(name@)) is None ==> (r matches Err(m) && m@ == "Unknown shell: "@ + name@),
{
    let lower = lowercase(name);
    match shell_from_lowercase(lower.as_str()) {
        Ok(sh) => Ok(sh),
        Err(_) => {
            let mut m = String::from_str("Unknown shell: ");
            m.append(name);
            Err(m)
        },
    }
}


/// The one-shot request of the `exec` command: the first word is the
/// command and the rest its arguments, no environment overlay, UTF-8 output.
/// An empty command or an unknown shell is an error.
pub fn exec_request_from_cli(shell: &str, cwd: Option<String>, timeout_ms: u64, command: &[String]) -> (r: Result<
    ExecRequest,
    String,
>)
    ensures
        command@.len() == 0 ==> (r matches Err(m) && m@ == "No command specified"@),
        command@.len() > 0 && shell_named(lower_of(shell@)) is None ==> (r matches Err(m) && m@ == "Unknown shell: "@ + shell@),
        command@.len() > 0 && shell_named(lower_of(shell@)) is Some ==> {
            &&& r matches Ok(req)
            &&& Some(req.shell) == shell_named(lower_of(shell@))
            &&& req.command@ == command@[0]@
            &&& req.args@.len() == command@.len() - 1
            &&& forall|i: int| 0 <= i < req.args@.len() ==> #[trigger] req.args@[i]@ == command@[i + 1]@
            &&& req.cwd == cwd
            &&& req.env@.len() == 0
            &&& req.timeout_ms == timeout_ms
            &&& req.encoding@ == "utf-8"@
        },
{
    if command.len() == 0 {
        return Err(String::from_str("No command specified"));
    }
    let sh = match parse_shell_name(shell) {
        Ok(sh) => sh,
        Err(m) => return Err(m),
    };
    let mut args: Vec<String> = Vec::new();
    let mut i: usize = 1;
    while i < command.len()
        invariant
            1 <= i <= command@.len(),
            args@.len() == i - 1,
            forall|j: int| 0 <= j < args@.len() ==> #[trigger] args@[j]@ == command@[j + 1]@,
        decreases command@.len() - i,
    {
        args.push(command[i].clone());
        i = i + 1;
    }
    Ok(ExecRequest {
        shell: sh,
        command: command[0].clone(),
        args,
        cwd,
        env: Vec::new(),
        timeout_ms,
        encoding: String::from_str("utf-8"),
    })
}

/// The session request of the `tui` command: no working directory or
/// environment overlay, a ten-minute idle timeout and UTF-8 forced.
pub fn session_request_from_cli(shell: &str, cols: u16, rows: u16) -> (r: Result<SessionCreateRequest, String>)
    ensures
        shell_named(lower_of(shell@)) is None ==> (r matches Err(m) && m@ == "Unknown shell: "@ + shell@),
        shell_named(lower_of(shell@)) is Some ==> {
            &&& r matches Ok(req)
            &&& Some(req.shell) == shell_named(lower_of(shell@))
            &&& req.cwd is None
            &&& req.env@.len() == 0
            &&& req.cols == cols
            &&& req.rows == rows
            &&& req.idle_timeout_sec == 600
            &&& req.init.force_utf8
        },
{
    let sh = match parse_shell_name(shell) {
        Ok(sh) => sh,
        Err(m) => return Err(m),
    };
    Ok(SessionCreateRequest {
        shell: sh,
        cwd: None,
        env: Vec::new(),
        cols,
        rows,
        idle_timeout_sec: 600,
        init: SessionInit { force_utf8: true },
    })
}

} // verus!
