//! Remote shell and command execution over the terminal WebSocket.
//!
//! The session logic is a state machine: the caller performs the I/O (the
//! WebSocket, stdin, stdout, timers), hands each event to
//! [`ShellSession::step`] and performs the action it returns.
pub mod protocol;

use crate::output::Format;
use crate::strs::{chars_of, contains_char, push_str, string_of};
use crate::text::line::capped;
use protocol::{
    control_json, encode_control, encode_input, input_frame, output_frame, server_frame,
    ClientControl, ProtocolError, ServerBinaryChannel, ServerControl, MAX_BINARY_PAYLOAD_BYTES,
};
use vstd::prelude::*;
use vstd::utf8::*;

verus! {

/// Largest output an exec session captures for JSON output (16 MiB).
pub const MAX_CAPTURE_BYTES: usize = 16777216;

/// Largest number of exec arguments.
pub const MAX_EXEC_ARGUMENTS: usize = 128;

/// Largest size of one exec argument, in bytes.
pub const MAX_EXEC_ARGUMENT_BYTES: usize = 4096;

/// Largest total size of the exec arguments, in bytes.
pub const MAX_EXEC_TOTAL_BYTES: usize = 32768;

/// Arguments of `d1v shell`.
#[derive(Debug, Clone)]
pub struct ShellArgs {
    /// Project ID; omit to use D1V_PROJECT_ID from `.env`
    pub project_id: Option<String>,
    /// Explicitly open the workspace root instead of the current project
    pub workspace: bool,
    /// Organization workspace ID (workspace-root shells only)
    pub organization_id: Option<u64>,
}

/// Arguments of `d1v exec`.
#[derive(Debug, Clone)]
pub struct ExecArgs {
    /// Project directory target; omit to use D1V_PROJECT_ID from `.env`
    pub project_id: Option<String>,
    /// Explicitly execute at the workspace root instead of the current project
    pub workspace: bool,
    /// Organization workspace ID (workspace-root exec only)
    pub organization_id: Option<u64>,
    /// Command and arguments
    pub command: Vec<String>,
}

/// Why a shell or exec session is refused or ends in failure.
#[derive(Debug, Clone, PartialEq, Eq)]
pub enum ShellError {
    /// `--organization-id` given for a project target.
    OrganizationConflict { interactive: bool },
    MissingCommand,
    InvalidArgument,
    ArgumentLimit,
    JsonOutput,
    NotATerminal,
    Protocol(ProtocolError),
    Server { is_exec: bool, code: String, retryable: bool },
    Closed { is_exec: bool, reason: String },
    Transport { is_exec: bool, detail: String },
    Ended { is_exec: bool },
    HeartbeatTimeout { is_exec: bool },
    CaptureLimit,
}

/// "terminal" or "exec", as error messages name the session.
pub open spec fn kind_word(is_exec: bool) -> Seq<char> {
    if is_exec {
        "exec"@
    } else {
        "terminal"@
    }
}

impl ShellError {
    pub open spec fn message_spec(self) -> Seq<char> {
        match self {
            ShellError::OrganizationConflict { interactive } => if interactive {
                "--organization-id cannot be used with PROJECT_ID"@
            } else {
                "--organization-id cannot be used with --project-id"@
            },
            ShellError::MissingCommand => "exec command is required after --"@,
            ShellError::InvalidArgument =>
                "exec arguments must be non-empty, NUL-free, and at most 4096 bytes"@,
            ShellError::ArgumentLimit => "exec command exceeds the argument limit"@,
            ShellError::JsonOutput => "d1v shell requires text output; omit --format json"@,
            ShellError::NotATerminal => "d1v shell requires an interactive terminal"@,
            ShellError::Protocol(_) => Seq::empty(),
            ShellError::Server { is_exec, code, retryable } => kind_word(is_exec) + " server error: "@
                + code@ + (if retryable {
                " (retryable)"@
            } else {
                Seq::empty()
            }),
            ShellError::Closed { is_exec, reason } => kind_word(is_exec) + " connection closed: "@
                + reason@,
            ShellError::Transport { is_exec, detail } => kind_word(is_exec) + " WebSocket error: "@
                + detail@,
            ShellError::Ended { is_exec } => kind_word(is_exec)
                + " connection ended before exit status"@,
            ShellError::HeartbeatTimeout { is_exec } => kind_word(is_exec)
                + " application heartbeat timed out"@,
            ShellError::CaptureLimit =>
                "exec output exceeds the 16 MiB JSON capture limit; use text output"@,
        }
    }

    /// The error's message; a protocol error gives the protocol's message.
    pub fn message(&self) -> (r: String)
        ensures
            !(self is Protocol) ==> r@ == self.message_spec(),
    {
        let mut v: Vec<char> = Vec::new();
        match self {
            ShellError::OrganizationConflict { interactive } => {
                if *interactive {
                    push_str(&mut v, "--organization-id cannot be used with PROJECT_ID");
                } else {
                    push_str(&mut v, "--organization-id cannot be used with --project-id");
                }
            },
            ShellError::MissingCommand => push_str(&mut v, "exec command is required after --"),
            ShellError::InvalidArgument => push_str(
                &mut v,
                "exec arguments must be non-empty, NUL-free, and at most 4096 bytes",
            ),
            ShellError::ArgumentLimit => push_str(&mut v, "exec command exceeds the argument limit"),
            ShellError::JsonOutput => push_str(
                &mut v,
                "d1v shell requires text output; omit --format json",
            ),
            ShellError::NotATerminal => push_str(&mut v, "d1v shell requires an interactive terminal"),
            ShellError::Protocol(e) => {
                return e.message();
            },
            ShellError::Server { is_exec, code, retryable } => {
                push_kind(&mut v, *is_exec);
                push_str(&mut v, " server error: ");
                push_str(&mut v, code.as_str());
                if *retryable {
                    push_str(&mut v, " (retryable)");
                }
            },
            ShellError::Closed { is_exec, reason } => {
                push_kind(&mut v, *is_exec);
                push_str(&mut v, " connection closed: ");
                push_str(&mut v, reason.as_str());
            },
            ShellError::Transport { is_exec, detail } => {
                push_kind(&mut v, *is_exec);
                push_str(&mut v, " WebSocket error: ");
                push_str(&mut v, detail.as_str());
            },
            ShellError::Ended { is_exec } => {
                push_kind(&mut v, *is_exec);
                push_str(&mut v, " connection ended before exit status");
            },
            ShellError::HeartbeatTimeout { is_exec } => {
                push_kind(&mut v, *is_exec);
                push_str(&mut v, " application heartbeat timed out");
            },
            ShellError::CaptureLimit => push_str(
                &mut v,
                "exec output exceeds the 16 MiB JSON capture limit; use text output",
            ),
        }
        assert(v@ =~= self.message_spec());
        string_of(v.as_slice())
    }
}

fn push_kind(v: &mut Vec<char>, is_exec: bool)
    ensures
        final(v)@ == old(v)@ + kind_word(is_exec),
{
    if is_exec {
        push_str(v, "exec");
    } else {
        push_str(v, "terminal");
    }
}

/// Whether a project target and an organization are asked for together.
pub open spec fn organization_conflict(
    project_id: Option<String>,
    workspace: bool,
    organization_id: Option<u64>,
) -> bool {
    (project_id is Some || !workspace) && organization_id is Some
}

/// An acceptable exec argument: non-empty, without NUL, at most 4096 bytes.
pub open spec fn argument_ok(a: Seq<char>) -> bool {
    a.len() > 0 && !a.contains('\0') && encode_utf8(a).len() <= MAX_EXEC_ARGUMENT_BYTES
}

/// Total UTF-8 size of the arguments.
pub open spec fn total_bytes(args: Seq<String>) -> nat
    decreases args.len(),
{
    if args.len() == 0 {
        0
    } else {
        total_bytes(args.drop_last()) + encode_utf8(args.last()@).len()
    }
}

/// The error `validate_exec` reports, if any.
pub open spec fn exec_error(args: ExecArgs) -> Option<ShellError> {
    if organization_conflict(args.project_id, args.workspace, args.organization_id) {
        Some(ShellError::OrganizationConflict { interactive: false })
    } else if args.command@.len() == 0 {
        Some(ShellError::MissingCommand)
    } else if exists|i: int| 0 <= i < args.command@.len() && !argument_ok(#[trigger] args.command@[i]@) {
        Some(ShellError::InvalidArgument)
    } else if args.command@.len() > MAX_EXEC_ARGUMENTS || total_bytes(args.command@)
        > MAX_EXEC_TOTAL_BYTES {
        Some(ShellError::ArgumentLimit)
    } else {
        None
    }
}

/// Checks the scope and the arguments of an exec request.
pub fn validate_exec(args: &ExecArgs) -> (r: Result<(), ShellError>)
    ensures
        r is Ok <==> exec_error(*args) is None,
        r matches Err(e) ==> exec_error(*args) == Some(e),
{
    if (args.project_id.is_some() || !args.workspace) && args.organization_id.is_some() {
        return Err(ShellError::OrganizationConflict { interactive: false });
    }
    if args.command.len() == 0 {
        return Err(ShellError::MissingCommand);
    }
    let mut total: usize = 0;
    let mut i: usize = 0;
    while i < args.command.len()
        invariant
            i <= args.command@.len(),
            total == capped(total_bytes(args.command@.subrange(0, i as int))),
            forall|j: int| 0 <= j < i ==> argument_ok(#[trigger] args.command@[j]@),
            !organization_conflict(args.project_id, args.workspace, args.organization_id),
            args.command@.len() > 0,
        decreases args.command@.len() - i,
    {
        let a = args.command[i].as_str();
        let n = a.as_bytes().len();
        let c = chars_of(a);
        if n == 0 || contains_char(c.as_slice(), '\0') || n > MAX_EXEC_ARGUMENT_BYTES {
            proof {
                lemma_encode_utf8_empty(args.command@[i as int]@);
            }
            assert(!argument_ok(args.command@[i as int]@));
            return Err(ShellError::InvalidArgument);
        }
        proof {
            lemma_encode_utf8_empty(args.command@[i as int]@);
        }
        assert(args.command@.subrange(0, i + 1).drop_last() =~= args.command@.subrange(0, i as int));
        assert(args.command@.subrange(0, i + 1).last() == args.command@[i as int]);
        assert(total_bytes(args.command@.subrange(0, i + 1)) == total_bytes(
            args.command@.subrange(0, i as int),
        ) + n);
        if total <= usize::MAX - n {
            total = total + n;
        } else {
            total = usize::MAX;
        }
        i = i + 1;
    }
    assert(args.command@.subrange(0, args.command@.len() as int) =~= args.command@);
    if args.command.len() > MAX_EXEC_ARGUMENTS || total > MAX_EXEC_TOTAL_BYTES {
        return Err(ShellError::ArgumentLimit);
    }
    Ok(())
}

proof fn lemma_encode_utf8_empty(s: Seq<char>)
    ensures
        (encode_utf8(s).len() == 0) <==> (s.len() == 0),
{
    if s.len() == 0 {
        assert(encode_utf8(s) =~= Seq::<u8>::empty());
    } else {
        assert(s =~= seq![s[0]] + s.drop_first());
        crate::text::lemma_encode_concat(seq![s[0]], s.drop_first());
        assert(seq![s[0]].drop_first() =~= Seq::<char>::empty());
        assert(encode_utf8(Seq::<char>::empty()) =~= Seq::<u8>::empty());
    }
}

/// The error `validate_interactive` reports, if any.
pub open spec fn interactive_error(
    args: ShellArgs,
    format: Format,
    stdin_tty: bool,
    stdout_tty: bool,
) -> Option<ShellError> {
    if organization_conflict(args.project_id, args.workspace, args.organization_id) {
        Some(ShellError::OrganizationConflict { interactive: true })
    } else if format == Format::Json {
        Some(ShellError::JsonOutput)
    } else if !stdin_tty || !stdout_tty {
        Some(ShellError::NotATerminal)
    } else {
        None
    }
}

/// Checks that an interactive shell may start: a consistent scope, text
/// output, and a terminal on stdin and stdout.
pub fn validate_interactive(
    args: &ShellArgs,
    format: Format,
    stdin_tty: bool,
    stdout_tty: bool,
) -> (r: Result<(), ShellError>)
    ensures
        r is Ok <==> interactive_error(*args, format, stdin_tty, stdout_tty) is None,
        r matches Err(e) ==> interactive_error(*args, format, stdin_tty, stdout_tty) == Some(e),
{
    if (args.project_id.is_some() || !args.workspace) && args.organization_id.is_some() {
        return Err(ShellError::OrganizationConflict { interactive: true });
    }
    match format {
        Format::Json => {
            return Err(ShellError::JsonOutput);
        },
        Format::Text => {},
    }
    if !stdin_tty || !stdout_tty {
        return Err(ShellError::NotATerminal);
    }
    Ok(())
}

pub open spec fn clamp(v: u16, lo: u16, hi: u16) -> u16 {
    if v < lo {
        lo
    } else if v > hi {
        hi
    } else {
        v
    }
}

/// Clamps a terminal size to what the API accepts: 20..=500 columns and
/// 5..=200 rows.
pub fn normalize_terminal_size(size: (u16, u16)) -> (r: (u16, u16))
    ensures
        r == (clamp(size.0, 20, 500), clamp(size.1, 5, 200)),
{
    let (cols, rows) = size;
    let c = if cols < 20 {
        20
    } else if cols > 500 {
        500
    } else {
        cols
    };
    let r = if rows < 5 {
        5
    } else if rows > 200 {
        200
    } else {
        rows
    };
    (c, r)
}

/// `a + b`, or `i64::MAX` on overflow.
pub open spec fn sat_inc(a: i64) -> i64 {
    if a < i64::MAX {
        (a + 1) as i64
    } else {
        i64::MAX
    }
}

/// Application-level heartbeat: a ping goes out on each tick, and a tick
/// that finds the previous ping unanswered ends the session.
#[derive(Debug, Clone, Copy, PartialEq, Eq, Structural)]
pub struct Heartbeat {
    pub sequence: i64,
    pub awaiting: Option<i64>,
}

/// The heartbeat after a tick, or `None` when the tick times out.
pub open spec fn heartbeat_tick(h: Heartbeat) -> Option<Heartbeat> {
    if h.awaiting is Some {
        None
    } else {
        Some(Heartbeat { sequence: sat_inc(h.sequence), awaiting: Some(sat_inc(h.sequence)) })
    }
}

/// The heartbeat after a pong with the given timestamp.
pub open spec fn heartbeat_pong(h: Heartbeat, timestamp: i64) -> Heartbeat {
    if h.awaiting == Some(timestamp) {
        Heartbeat { sequence: h.sequence, awaiting: None }
    } else {
        h
    }
}

/// Heartbeat law: a tick sends a ping that a pong with its timestamp
/// answers, so the next tick goes on; without that pong the next tick times
/// out.
pub proof fn lemma_heartbeat_liveness(h: Heartbeat, other: i64)
    requires
        h.awaiting is None,
    ensures
        heartbeat_tick(h) is Some,
        heartbeat_tick(heartbeat_pong(heartbeat_tick(h)->0, heartbeat_tick(h)->0.sequence)) is Some,
        other != heartbeat_tick(h)->0.sequence ==> heartbeat_tick(
            heartbeat_pong(heartbeat_tick(h)->0, other),
        ) is None,
        heartbeat_tick(heartbeat_tick(h)->0) is None,
{
}

/// A frame the client sends.
#[derive(Debug, Clone, PartialEq, Eq)]
pub enum OutFrame {
    Text(String),
    Binary(Vec<u8>),
    Pong(Vec<u8>),
}

/// Something the session's transport observed.
#[derive(Debug, Clone, PartialEq, Eq)]
pub enum ShellEvent {
    /// Bytes read from the local terminal; empty at end of input.
    Input(Vec<u8>),
    /// A binary WebSocket message.
    Binary(Vec<u8>),
    /// A text WebSocket message, decoded.
    Control(ServerControl),
    /// A text WebSocket message that does not decode, with the reason.
    InvalidControl(String),
    /// A WebSocket ping with its payload.
    Ping(Vec<u8>),
    /// The server closed the connection, with its reason.
    Close(String),
    /// A message that needs no answer (pong, raw frame).
    Ignored,
    /// The WebSocket failed.
    TransportError(String),
    /// The connection ended without a close.
    Ended,
    /// The resize timer fired; the local terminal's current size.
    ResizeTick(u16, u16),
    /// The heartbeat timer fired.
    HeartbeatTick,
}

/// What the caller does next.
#[derive(Debug, Clone, PartialEq, Eq)]
pub enum ShellAction {
    Continue,
    Send(Vec<OutFrame>),
    WriteStdout(Vec<u8>),
    WriteStderr(Vec<u8>),
    /// Send the given text frame, then end with exit code 0.
    Detach(String),
    /// The remote command ended with this exit code.
    Exit(i32),
    Fail(ShellError),
}

/// State of an interactive terminal or exec session.
pub struct ShellSession {
    /// An exec session (else an interactive terminal).
    pub is_exec: bool,
    /// Exec output is captured rather than written (JSON output).
    pub capture: bool,
    /// The terminal size last sent.
    pub size: (u16, u16),
    pub stdout: Vec<u8>,
    pub stderr: Vec<u8>,
    pub heartbeat: Heartbeat,
}

/// The frames that carry `data` as terminal input, one per chunk of at most
/// the largest payload.
pub open spec fn input_chunks(data: Seq<u8>) -> Seq<Seq<u8>>
    decreases data.len(),
{
    if data.len() == 0 {
        Seq::empty()
    } else if data.len() <= MAX_BINARY_PAYLOAD_BYTES {
        seq![seq![protocol::INPUT_CHANNEL] + data]
    } else {
        seq![seq![protocol::INPUT_CHANNEL] + data.subrange(0, MAX_BINARY_PAYLOAD_BYTES as int)]
            + input_chunks(data.subrange(MAX_BINARY_PAYLOAD_BYTES as int, data.len() as int))
    }
}

/// The action sends exactly one text frame with this text.
pub open spec fn sends_one_text(r: ShellAction, t: Seq<char>) -> bool {
    &&& r is Send
    &&& r->Send_0@.len() == 1
    &&& r->Send_0@[0] is Text
    &&& r->Send_0@[0]->Text_0@ == t
}

/// The action sends exactly one pong frame with this payload.
pub open spec fn sends_one_pong(r: ShellAction, p: Seq<u8>) -> bool {
    &&& r is Send
    &&& r->Send_0@.len() == 1
    &&& r->Send_0@[0] is Pong
    &&& r->Send_0@[0]->Pong_0@ == p
}

pub open spec fn binary_frames(frames: Seq<OutFrame>) -> Seq<Seq<u8>>
    recommends
        forall|i: int| 0 <= i < frames.len() ==> #[trigger] frames[i] is Binary,
{
    Seq::new(frames.len(), |i: int| frames[i]->Binary_0@)
}

impl ShellSession {
    pub fn new_terminal(cols: u16, rows: u16) -> (r: Self)
        ensures
            !r.is_exec,
            !r.capture,
            r.size == (cols, rows),
            r.stdout@.len() == 0,
            r.stderr@.len() == 0,
            r.heartbeat == (Heartbeat { sequence: 0, awaiting: None }),
    {
        ShellSession {
            is_exec: false,
            capture: false,
            size: (cols, rows),
            stdout: Vec::new(),
            stderr: Vec::new(),
            heartbeat: Heartbeat { sequence: 0, awaiting: None },
        }
    }

    pub fn new_exec(capture: bool) -> (r: Self)
        ensures
            r.is_exec,
            r.capture == capture,
            r.size == (120u16, 40u16),
            r.stdout@.len() == 0,
            r.stderr@.len() == 0,
            r.heartbeat == (Heartbeat { sequence: 0, awaiting: None }),
    {
        ShellSession {
            is_exec: true,
            capture,
            size: (120, 40),
            stdout: Vec::new(),
            stderr: Vec::new(),
            heartbeat: Heartbeat { sequence: 0, awaiting: None },
        }
    }

    /// The text frame that opens the stream at the session's size.
    pub fn open_frame(&self) -> (r: String)
        ensures
            r@ == control_json(
                ClientControl::Open {
                    version: protocol::VERSION,
                    cols: self.size.0,
                    rows: self.size.1,
                    term: "xterm-256color",
                },
            ),
    {
        let c = ClientControl::open(self.size.0, self.size.1);
        control_text(&c)
    }

    /// Advances the session by one event.
    pub fn step(&mut self, event: ShellEvent) -> (r: ShellAction)
        ensures
            final(self).is_exec == old(self).is_exec,
            final(self).capture == old(self).capture,
            match event {
                ShellEvent::Input(data) => final(self).size == old(self).size
                    && final(self).heartbeat == old(self).heartbeat
                    && final(self).stdout@ == old(self).stdout@
                    && final(self).stderr@ == old(self).stderr@
                    && if data@.len() == 0 {
                    r matches ShellAction::Detach(s) && s@ == control_json(ClientControl::Detach)
                } else {
                    r matches ShellAction::Send(frames) && (forall|i: int|
                        0 <= i < frames@.len() ==> #[trigger] frames@[i] is Binary)
                        && binary_frames(frames@) == input_chunks(data@)
                },
                ShellEvent::Binary(frame) => final(self).size == old(self).size
                    && final(self).heartbeat == old(self).heartbeat
                    && if !old(self).is_exec {
                    final(self).stdout@ == old(self).stdout@
                        && final(self).stderr@ == old(self).stderr@
                        && match output_frame(frame@) {
                        Ok(p) => r matches ShellAction::WriteStdout(b) && b@ == p,
                        Err(e) => r == ShellAction::Fail(ShellError::Protocol(e)),
                    }
                } else {
                    match server_frame(frame@) {
                        Err(e) => r == ShellAction::Fail(ShellError::Protocol(e))
                            && final(self).stdout@ == old(self).stdout@
                            && final(self).stderr@ == old(self).stderr@,
                        Ok((ch, p)) => if !old(self).capture {
                            final(self).stdout@ == old(self).stdout@
                                && final(self).stderr@ == old(self).stderr@
                                && (if ch == ServerBinaryChannel::Output {
                                r matches ShellAction::WriteStdout(b) && b@ == p
                            } else {
                                r matches ShellAction::WriteStderr(b) && b@ == p
                            })
                        } else {
                            let dest = if ch == ServerBinaryChannel::Output {
                                old(self).stdout@
                            } else {
                                old(self).stderr@
                            };
                            if dest.len() + p.len() > MAX_CAPTURE_BYTES {
                                r == ShellAction::Fail(ShellError::CaptureLimit)
                                    && final(self).stdout@ == old(self).stdout@
                                    && final(self).stderr@ == old(self).stderr@
                            } else {
                                r == ShellAction::Continue && if ch == ServerBinaryChannel::Output {
                                    final(self).stdout@ == old(self).stdout@ + p
                                        && final(self).stderr@ == old(self).stderr@
                                } else {
                                    final(self).stderr@ == old(self).stderr@ + p
                                        && final(self).stdout@ == old(self).stdout@
                                }
                            }
                        },
                    }
                },
                ShellEvent::Control(c) => final(self).size == old(self).size
                    && final(self).stdout@ == old(self).stdout@
                    && final(self).stderr@ == old(self).stderr@
                    && match c {
                    ServerControl::Pong { timestamp } => final(self).heartbeat == heartbeat_pong(
                        old(self).heartbeat,
                        timestamp,
                    ) && r == ShellAction::Continue,
                    ServerControl::Exit { code, .. } => final(self).heartbeat
                        == old(self).heartbeat && r == ShellAction::Exit(
                        match code {
                            Some(c) => c,
                            None => 1,
                        },
                    ),
                    ServerControl::Error { code, retryable } => final(self).heartbeat
                        == old(self).heartbeat && r == ShellAction::Fail(
                        ShellError::Server { is_exec: old(self).is_exec, code, retryable },
                    ),
                    _ => final(self).heartbeat == old(self).heartbeat && r
                        == ShellAction::Continue,
                },
                ShellEvent::InvalidControl(m) => r == ShellAction::Fail(
                    ShellError::Protocol(ProtocolError::InvalidControlFrame(m)),
                ) && final(self).heartbeat == old(self).heartbeat,
                ShellEvent::Ping(p) => sends_one_pong(r, p@) && final(self).heartbeat
                    == old(self).heartbeat,
                ShellEvent::Close(reason) => r == ShellAction::Fail(
                    ShellError::Closed { is_exec: old(self).is_exec, reason },
                ),
                ShellEvent::Ignored => r == ShellAction::Continue && final(self).heartbeat
                    == old(self).heartbeat && final(self).size == old(self).size,
                ShellEvent::TransportError(detail) => r == ShellAction::Fail(
                    ShellError::Transport { is_exec: old(self).is_exec, detail },
                ),
                ShellEvent::Ended => r == ShellAction::Fail(
                    ShellError::Ended { is_exec: old(self).is_exec },
                ),
                ShellEvent::ResizeTick(cols, rows) => final(self).heartbeat == old(self).heartbeat
                    && final(self).stdout@ == old(self).stdout@
                    && final(self).stderr@ == old(self).stderr@
                    && if old(self).is_exec || (clamp(cols, 20, 500), clamp(rows, 5, 200))
                    == old(self).size {
                    r == ShellAction::Continue && final(self).size == old(self).size
                } else {
                    final(self).size == (clamp(cols, 20, 500), clamp(rows, 5, 200))
                        && sends_one_text(
                        r,
                        control_json(
                            ClientControl::Resize {
                                cols: final(self).size.0,
                                rows: final(self).size.1,
                            },
                        ),
                    )
                },
                ShellEvent::HeartbeatTick => final(self).size == old(self).size
                    && final(self).stdout@ == old(self).stdout@
                    && final(self).stderr@ == old(self).stderr@
                    && match heartbeat_tick(old(self).heartbeat) {
                    None => r == ShellAction::Fail(
                        ShellError::HeartbeatTimeout { is_exec: old(self).is_exec },
                    ) && final(self).heartbeat == old(self).heartbeat,
                    Some(h) => final(self).heartbeat == h && sends_one_text(
                        r,
                        control_json(ClientControl::Ping { timestamp: h.sequence }),
                    ),
                },
            },
    {
        match event {
            ShellEvent::Input(data) => {
                if data.len() == 0 {
                    ShellAction::Detach(control_text(&ClientControl::Detach))
                } else {
                    ShellAction::Send(input_frames(&data))
                }
            },
            ShellEvent::Binary(frame) => self.on_binary(&frame),
            ShellEvent::Control(c) => match c {
                ServerControl::Pong { timestamp } => {
                    if self.heartbeat.awaiting == Some(timestamp) {
                        self.heartbeat = Heartbeat { sequence: self.heartbeat.sequence, awaiting: None };
                    }
                    ShellAction::Continue
                },
                ServerControl::Exit { code, .. } => ShellAction::Exit(
                    match code {
                        Some(c) => c,
                        None => 1,
                    },
                ),
                ServerControl::Error { code, retryable } => ShellAction::Fail(
                    ShellError::Server { is_exec: self.is_exec, code, retryable },
                ),
                _ => ShellAction::Continue,
            },
            ShellEvent::InvalidControl(m) => ShellAction::Fail(
                ShellError::Protocol(ProtocolError::InvalidControlFrame(m)),
            ),
            ShellEvent::Ping(p) => {
                let mut frames: Vec<OutFrame> = Vec::new();
                frames.push(OutFrame::Pong(p));
                ShellAction::Send(frames)
            },
            ShellEvent::Close(reason) => ShellAction::Fail(
                ShellError::Closed { is_exec: self.is_exec, reason },
            ),
            ShellEvent::Ignored => ShellAction::Continue,
            ShellEvent::TransportError(detail) => ShellAction::Fail(
                ShellError::Transport { is_exec: self.is_exec, detail },
            ),
            ShellEvent::Ended => ShellAction::Fail(ShellError::Ended { is_exec: self.is_exec }),
            ShellEvent::ResizeTick(cols, rows) => {
                let next = normalize_terminal_size((cols, rows));
                if self.is_exec || (next.0 == self.size.0 && next.1 == self.size.1) {
                    ShellAction::Continue
                } else {
                    self.size = next;
                    let c = ClientControl::Resize { cols: next.0, rows: next.1 };
                    let mut frames: Vec<OutFrame> = Vec::new();
                    frames.push(OutFrame::Text(control_text(&c)));
                    ShellAction::Send(frames)
                }
            },
            ShellEvent::HeartbeatTick => {
                if self.heartbeat.awaiting.is_some() {
                    ShellAction::Fail(ShellError::HeartbeatTimeout { is_exec: self.is_exec })
                } else {
                    let s = if self.heartbeat.sequence < i64::MAX {
                        self.heartbeat.sequence + 1
                    } else {
                        i64::MAX
                    };
                    self.heartbeat = Heartbeat { sequence: s, awaiting: Some(s) };
                    let c = ClientControl::Ping { timestamp: s };
                    let mut frames: Vec<OutFrame> = Vec::new();
                    frames.push(OutFrame::Text(control_text(&c)));
                    ShellAction::Send(frames)
                }
            },
        }
    }

    fn on_binary(&mut self, frame: &Vec<u8>) -> (r: ShellAction)
        ensures
            final(self).is_exec == old(self).is_exec,
            final(self).capture == old(self).capture,
            final(self).size == old(self).size,
            final(self).heartbeat == old(self).heartbeat,
            if !old(self).is_exec {
                final(self).stdout@ == old(self).stdout@
                    && final(self).stderr@ == old(self).stderr@
                    && match output_frame(frame@) {
                    Ok(p) => r matches ShellAction::WriteStdout(b) && b@ == p,
                    Err(e) => r == ShellAction::Fail(ShellError::Protocol(e)),
                }
            } else {
                match server_frame(frame@) {
                    Err(e) => r == ShellAction::Fail(ShellError::Protocol(e))
                        && final(self).stdout@ == old(self).stdout@
                        && final(self).stderr@ == old(self).stderr@,
                    Ok((ch, p)) => if !old(self).capture {
                        final(self).stdout@ == old(self).stdout@
                            && final(self).stderr@ == old(self).stderr@
                            && (if ch == ServerBinaryChannel::Output {
                            r matches ShellAction::WriteStdout(b) && b@ == p
                        } else {
                            r matches ShellAction::WriteStderr(b) && b@ == p
                        })
                    } else {
                        let dest = if ch == ServerBinaryChannel::Output {
                            old(self).stdout@
                        } else {
                            old(self).stderr@
                        };
                        if dest.len() + p.len() > MAX_CAPTURE_BYTES {
                            r == ShellAction::Fail(ShellError::CaptureLimit)
                                && final(self).stdout@ == old(self).stdout@
                                && final(self).stderr@ == old(self).stderr@
                        } else {
                            r == ShellAction::Continue && if ch == ServerBinaryChannel::Output {
                                final(self).stdout@ == old(self).stdout@ + p
                                    && final(self).stderr@ == old(self).stderr@
                            } else {
                                final(self).stderr@ == old(self).stderr@ + p
                                    && final(self).stdout@ == old(self).stdout@
                            }
                        }
                    },
                }
            },
    {
        if !self.is_exec {
            return match protocol::decode_output(frame.as_slice()) {
                Ok(p) => ShellAction::WriteStdout(copy_bytes(p)),
                Err(e) => ShellAction::Fail(ShellError::Protocol(e)),
            };
        }
        match protocol::decode_server_binary(frame.as_slice()) {
            Err(e) => ShellAction::Fail(ShellError::Protocol(e)),
            Ok((ch, p)) => {
                if !self.capture {
                    match ch {
                        ServerBinaryChannel::Output => ShellAction::WriteStdout(copy_bytes(p)),
                        ServerBinaryChannel::Stderr => ShellAction::WriteStderr(copy_bytes(p)),
                    }
                } else {
                    let dest_len = match ch {
                        ServerBinaryChannel::Output => self.stdout.len(),
                        ServerBinaryChannel::Stderr => self.stderr.len(),
                    };
                    if dest_len > MAX_CAPTURE_BYTES || p.len() > MAX_CAPTURE_BYTES - dest_len {
                        return ShellAction::Fail(ShellError::CaptureLimit);
                    }
                    match ch {
                        ServerBinaryChannel::Output => append_bytes(&mut self.stdout, p),
                        ServerBinaryChannel::Stderr => append_bytes(&mut self.stderr, p),
                    }
                    ShellAction::Continue
                }
            },
        }
    }
}

fn copy_bytes(p: &[u8]) -> (r: Vec<u8>)
    ensures
        r@ == p@,
{
    let mut v: Vec<u8> = Vec::new();
    append_bytes(&mut v, p);
    v
}

fn append_bytes(v: &mut Vec<u8>, p: &[u8])
    ensures
        final(v)@ == old(v)@ + p@,
{
    let ghost start = v@;
    let mut i: usize = 0;
    while i < p.len()
        invariant
            i <= p@.len(),
            v@ == start + p@.subrange(0, i as int),
        decreases p@.len() - i,
    {
        v.push(p[i]);
        assert(v@ =~= start + p@.subrange(0, i + 1));
        i = i + 1;
    }
    assert(p@.subrange(0, p@.len() as int) =~= p@);
}

/// The JSON text of a control message the session sends (its only text
/// field, the terminal name, is a fixed plain name).
fn control_text(c: &ClientControl) -> (r: String)
    requires
        c matches ClientControl::Open { term, .. } ==> term@ == "xterm-256color"@,
    ensures
        r@ == control_json(*c),
{
    proof {
        reveal_strlit("xterm-256color");
    }
    match encode_control(c) {
        Ok(s) => s,
        Err(_) => String::new(),
    }
}

/// The input frames for `data`, split at the largest payload.
fn input_frames(data: &Vec<u8>) -> (r: Vec<OutFrame>)
    ensures
        forall|i: int| 0 <= i < r@.len() ==> #[trigger] r@[i] is Binary,
        binary_frames(r@) == input_chunks(data@),
{
    let mut frames: Vec<OutFrame> = Vec::new();
    let mut start: usize = 0;
    let n = data.len();
    assert(data@.subrange(0, n as int) =~= data@);
    assert(binary_frames(frames@) =~= Seq::<Seq<u8>>::empty());
    assert(binary_frames(frames@) + input_chunks(data@) =~= input_chunks(data@));
    while start < n
        invariant
            start <= n,
            n == data@.len(),
            forall|i: int| 0 <= i < frames@.len() ==> #[trigger] frames@[i] is Binary,
            binary_frames(frames@) + input_chunks(data@.subrange(start as int, n as int))
                == input_chunks(data@),
        decreases n - start,
    {
        let end = if n - start > MAX_BINARY_PAYLOAD_BYTES {
            start + MAX_BINARY_PAYLOAD_BYTES
        } else {
            n
        };
        let chunk = vstd::slice::slice_subrange(data.as_slice(), start, end);
        let ghost rest = data@.subrange(start as int, n as int);
        let ghost before = frames@;
        match encode_input(chunk) {
            Ok(f) => {
                frames.push(OutFrame::Binary(f));
            },
            Err(_) => {
                frames.push(OutFrame::Binary(Vec::new()));
            },
        }
        proof {
            assert(chunk@ =~= rest.subrange(0, (end - start) as int));
            assert(data@.subrange(end as int, n as int) =~= rest.subrange(
                (end - start) as int,
                rest.len() as int,
            ));
            if rest.len() <= MAX_BINARY_PAYLOAD_BYTES {
                assert(rest.subrange(0, rest.len() as int) =~= rest);
                assert(data@.subrange(end as int, n as int) =~= Seq::<u8>::empty());
            }
            assert(binary_frames(frames@) =~= binary_frames(before).push(
                seq![protocol::INPUT_CHANNEL] + chunk@,
            ));
            assert(input_chunks(rest) =~= seq![seq![protocol::INPUT_CHANNEL] + chunk@]
                + input_chunks(data@.subrange(end as int, n as int)));
            assert(binary_frames(frames@) + input_chunks(data@.subrange(end as int, n as int))
                =~= binary_frames(before) + input_chunks(rest));
        }
        start = end;
    }
    assert(data@.subrange(n as int, n as int) =~= Seq::<u8>::empty());
    assert(binary_frames(frames@) + Seq::<Seq<u8>>::empty() =~= binary_frames(frames@));
    frames
}

} // verus!

verus! {

/// The project an exec runs in: the one given, or none for the workspace
/// root; without either, the `.env` project id, else a non-blank
/// `D1V_PROJECT_ID` variable.
pub open spec fn exec_project_id_spec(args: ExecArgs, env_file: Option<String>, env_var: Option<String>) -> Option<
    String,
> {
    if !args.workspace && args.project_id is None {
        match env_file {
            Some(id) => Some(id),
            None => match env_var {
                Some(v) => if crate::strs::trim_ws(v@).len() > 0 {
                    Some(v)
                } else {
                    None
                },
                None => None,
            },
        }
    } else {
        args.project_id
    }
}

pub fn exec_project_id(args: &ExecArgs, env_file: Option<String>, env_var: Option<String>) -> (r: Option<String>)
    ensures
        match (r, exec_project_id_spec(*args, env_file, env_var)) {
            (Some(a), Some(b)) => a@ == b@,
            (None, None) => true,
            _ => false,
        },
{
    if !args.workspace && args.project_id.is_none() {
        match env_file {
            Some(id) => Some(id),
            None => match env_var {
                Some(v) => {
                    if crate::strs::trim(chars_of(v.as_str()).as_slice()).len() > 0 {
                        Some(v)
                    } else {
                        None
                    }
                },
                None => None,
            },
        }
    } else {
        args.project_id.clone()
    }
}

/// What an exec run in JSON mode reports.
#[derive(Debug, Clone)]
pub struct ExecResult {
    pub session_id: String,
    pub project_id: Option<String>,
    pub cwd: String,
    pub exit_code: i32,
    pub stdout: String,
    pub stderr: String,
}

/// The report as `serde_json` pretty-prints it, fields in order, a missing
/// project as `null`.
pub open spec fn exec_result_json(r: ExecResult) -> Seq<char> {
    "{\n  \"session_id\": "@ + crate::relay::json_string_literal(r.session_id@) + ",\n  \"project_id\": "@
        + match r.project_id {
        Some(p) => crate::relay::json_string_literal(p@),
        None => "null"@,
    } + ",\n  \"cwd\": "@ + crate::relay::json_string_literal(r.cwd@) + ",\n  \"exit_code\": "@
        + crate::strs::int_dec(r.exit_code as int) + ",\n  \"stdout\": "@ + crate::relay::json_string_literal(
        r.stdout@,
    ) + ",\n  \"stderr\": "@ + crate::relay::json_string_literal(r.stderr@) + "\n}"@
}

fn push_json_str(v: &mut Vec<char>, s: &str)
    ensures
        final(v)@ == old(v)@ + crate::relay::json_string_literal(s@),
{
    let q = crate::relay::json_string(s);
    push_str(v, q.as_str());
}

impl ExecResult {
    pub fn to_json(&self) -> (r: String)
        ensures
            r@ == exec_result_json(*self),
    {
        let mut v: Vec<char> = Vec::new();
        push_str(&mut v, "{\n  \"session_id\": ");
        push_json_str(&mut v, self.session_id.as_str());
        push_str(&mut v, ",\n  \"project_id\": ");
        match &self.project_id {
            Some(p) => push_json_str(&mut v, p.as_str()),
            None => push_str(&mut v, "null"),
        }
        push_str(&mut v, ",\n  \"cwd\": ");
        push_json_str(&mut v, self.cwd.as_str());
        push_str(&mut v, ",\n  \"exit_code\": ");
        crate::strs::push_int_dec(&mut v, self.exit_code as i64);
        push_str(&mut v, ",\n  \"stdout\": ");
        push_json_str(&mut v, self.stdout.as_str());
        push_str(&mut v, ",\n  \"stderr\": ");
        push_json_str(&mut v, self.stderr.as_str());
        push_str(&mut v, "\n}");
        assert(v@ =~= exec_result_json(*self));
        string_of(v.as_slice())
    }
}

/// How an exec ends once the remote command exited and the session was
/// closed.
#[derive(Debug, Clone, Copy, PartialEq, Eq)]
pub enum ExecOutcome {
    Success,
    /// The command succeeded but closing the session failed: that error
    /// is reported.
    CloseFailed,
    /// The command exited with this non-zero code.
    RemoteExit(i32),
}

/// A non-zero exit wins over a failed close.
pub open spec fn exec_outcome_spec(exit_code: i32, closed: bool) -> ExecOutcome {
    if exit_code != 0 {
        ExecOutcome::RemoteExit(exit_code)
    } else if !closed {
        ExecOutcome::CloseFailed
    } else {
        ExecOutcome::Success
    }
}

pub fn exec_outcome(exit_code: i32, closed: bool) -> (r: ExecOutcome)
    ensures
        r == exec_outcome_spec(exit_code, closed),
{
    if exit_code != 0 {
        ExecOutcome::RemoteExit(exit_code)
    } else if !closed {
        ExecOutcome::CloseFailed
    } else {
        ExecOutcome::Success
    }
}

} // verus!
