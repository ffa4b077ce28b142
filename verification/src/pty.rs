//! The interactive terminal relay: what to do with each input from the user
//! and each message from the remote shell.
use base64::Engine;
use vstd::prelude::*;
use vstd::string::*;

verus! {

/// The character for a 6-bit value in the standard base64 alphabet.
pub open spec fn base64_digit(v: int) -> char {
    if v < 26 {
        ('A' as int + v) as char
    } else if v < 52 {
        ('a' as int + (v - 26)) as char
    } else if v < 62 {
        ('0' as int + (v - 52)) as char
    } else if v == 62 {
        '+'
    } else {
        '/'
    }
}

/// Standard base64 with padding (RFC 4648, section 4): each group of three
/// bytes becomes four characters; a final group of one or two bytes is
/// padded with `=`.
pub open spec fn base64_standard(b: Seq<u8>) -> Seq<char>
    decreases b.len(),
{
    if b.len() == 0 {
        seq![]
    } else {
        let x = b[0] as int;
        let y = if b.len() > 1 { b[1] as int } else { 0 };
        let z = if b.len() > 2 { b[2] as int } else { 0 };
        let first = base64_digit(x / 4);
        let second = base64_digit((x % 4) * 16 + y / 16);
        if b.len() == 1 {
            seq![first, second, '=', '=']
        } else if b.len() == 2 {
            seq![first, second, base64_digit((y % 16) * 4), '=']
        } else {
            seq![first, second, base64_digit((y % 16) * 4 + z / 64), base64_digit(z % 64)]
                + base64_standard(b.skip(3))
        }
    }
}

/// Calls `Engine::encode` on `base64::engine::general_purpose::STANDARD`.
/// Trusted: the result is the standard padded base64 encoding of the bytes,
/// as the crate documents for that engine.
#[verifier::external_body]
fn encode_base64(data: &[u8]) -> (r: String)
    ensures
        r@ == base64_standard(data@),
{
    base64::engine::general_purpose::STANDARD.encode(data)
}

/// Input for the terminal from the user.
#[derive(Debug)]
pub enum PtyInput {
    Data(Vec<u8>),
    Resize { cols: u32, rows: u32 },
}

/// What the relay loop received.
#[derive(Debug)]
pub enum PtyEvent {
    /// Input from the user.
    Input(PtyInput),
    /// The user side went away.
    InputClosed,
    /// Output (standard or error stream) from the remote shell.
    Output(Vec<u8>),
    /// The remote shell ended (end of file, channel closed, or no more
    /// messages).
    OutputEnded,
    /// Any other message from the channel.
    OutputOther,
}

/// What the relay loop does next.
#[derive(Debug)]
pub enum PtyAction {
    /// Send the bytes to the shell; stop if that fails.
    SendData(Vec<u8>),
    /// Tell the shell the window's new size.
    WindowChange { cols: u32, rows: u32 },
    /// Signal end of input to the shell, then stop.
    SendEofAndStop,
    /// Hand `payload` to the user interface as event `event`.
    Emit { event: String, payload: String },
    /// Stop relaying.
    Stop,
    /// Nothing to do.
    Continue,
}

/// The name of the event that carries the terminal output of a server.
pub open spec fn output_event_name(server_id: Seq<char>) -> Seq<char> {
    "pty-output:"@ + server_id
}

/// The name of the event sent once the terminal of a server has closed.
pub open spec fn closed_event_name(server_id: Seq<char>) -> Seq<char> {
    "pty-closed:"@ + server_id
}

/// The name of the event that carries the terminal output of a server.
pub fn pty_output_event(server_id: &str) -> (s: String)
    ensures
        s@ == output_event_name(server_id@),
{
    String::from_str("pty-output:").concat(server_id)
}

/// The name of the event sent once the terminal of a server has closed.
pub fn pty_closed_event(server_id: &str) -> (s: String)
    ensures
        s@ == closed_event_name(server_id@),
{
    String::from_str("pty-closed:").concat(server_id)
}

/// One step of the relay between the user interface and the remote shell.
/// Output is handed on base64-encoded, since terminal output need not be
/// valid UTF-8.
pub fn pty_step(server_id: &str, event: PtyEvent) -> (a: PtyAction)
    ensures
        match event {
            PtyEvent::Input(PtyInput::Data(bytes)) => a == PtyAction::SendData(bytes),
            PtyEvent::Input(PtyInput::Resize { cols, rows }) => a == (PtyAction::WindowChange {
                cols,
                rows,
            }),
            PtyEvent::InputClosed => a is SendEofAndStop,
            PtyEvent::Output(bytes) => a matches PtyAction::Emit { event: e, payload: p } && e@
                == output_event_name(server_id@) && p@ == base64_standard(bytes@),
            PtyEvent::OutputEnded => a is Stop,
            PtyEvent::OutputOther => a is Continue,
        },
{
    match event {
        PtyEvent::Input(PtyInput::Data(bytes)) => PtyAction::SendData(bytes),
        PtyEvent::Input(PtyInput::Resize { cols, rows }) => PtyAction::WindowChange { cols, rows },
        PtyEvent::InputClosed => PtyAction::SendEofAndStop,
        PtyEvent::Output(bytes) => PtyAction::Emit {
            event: pty_output_event(server_id),
            payload: encode_base64(bytes.as_slice()),
        },
        PtyEvent::OutputEnded => PtyAction::Stop,
        PtyEvent::OutputOther => PtyAction::Continue,
    }
}

} // verus!
