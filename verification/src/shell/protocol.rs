//! Wire format of the `d1v-terminal.v1` WebSocket subprotocol: binary
//! frames carry a channel byte followed by the payload; text frames carry
//! JSON control messages.
use crate::strs::{dec, int_dec, push_dec, push_int_dec, push_str, string_of};
use vstd::prelude::*;

verus! {

pub const VERSION: u8 = 1;

pub const SUBPROTOCOL: &'static str = "d1v-terminal.v1";

pub const INPUT_CHANNEL: u8 = 0x00;

pub const OUTPUT_CHANNEL: u8 = 0x01;

pub const STDERR_CHANNEL: u8 = 0x02;

pub const MAX_BINARY_PAYLOAD_BYTES: usize = 65536;

/// A frame the protocol refuses.
#[derive(Debug, Clone, PartialEq, Eq)]
pub enum ProtocolError {
    EmptyBinaryFrame,
    UnsupportedBinaryChannel(u8),
    BinaryPayloadTooLarge,
    InvalidControlFrame(String),
}

impl ProtocolError {
    /// The error's message.
    pub fn message(&self) -> (r: String)
        ensures
            r@ == (match self {
                ProtocolError::EmptyBinaryFrame => "terminal binary frame is empty"@,
                ProtocolError::UnsupportedBinaryChannel(c) => "unsupported terminal binary channel "@
                    + dec(*c as nat),
                ProtocolError::BinaryPayloadTooLarge => "terminal binary payload exceeds "@ + dec(
                    MAX_BINARY_PAYLOAD_BYTES as nat,
                ) + " bytes"@,
                ProtocolError::InvalidControlFrame(m) => "invalid terminal control frame: "@ + m@,
            }),
    {
        let mut v: Vec<char> = Vec::new();
        match self {
            ProtocolError::EmptyBinaryFrame => {
                push_str(&mut v, "terminal binary frame is empty");
            },
            ProtocolError::UnsupportedBinaryChannel(c) => {
                push_str(&mut v, "unsupported terminal binary channel ");
                push_dec(&mut v, *c as u64);
            },
            ProtocolError::BinaryPayloadTooLarge => {
                push_str(&mut v, "terminal binary payload exceeds ");
                push_dec(&mut v, MAX_BINARY_PAYLOAD_BYTES as u64);
                push_str(&mut v, " bytes");
            },
            ProtocolError::InvalidControlFrame(m) => {
                push_str(&mut v, "invalid terminal control frame: ");
                push_str(&mut v, m.as_str());
            },
        }
        string_of(v.as_slice())
    }
}

/// Channel of a binary frame from the server.
#[derive(Debug, Clone, Copy, PartialEq, Eq, Structural)]
pub enum ServerBinaryChannel {
    Output,
    Stderr,
}

/// Signal the client may forward.
#[derive(Debug, Clone, Copy, PartialEq, Eq, Structural)]
pub enum Signal {
    Interrupt,
    Terminate,
    Hangup,
}

/// Control message from the client.
#[derive(Debug, Clone, PartialEq, Eq)]
pub enum ClientControl {
    Open { version: u8, cols: u16, rows: u16, term: &'static str },
    Resize { cols: u16, rows: u16 },
    Signal { signal: Signal },
    Ping { timestamp: i64 },
    Detach,
}

impl ClientControl {
    pub fn open(cols: u16, rows: u16) -> (r: Self)
        ensures
            r matches ClientControl::Open { version, cols: c, rows: w, term } && version == VERSION
                && c == cols && w == rows && term@ == "xterm-256color"@,
    {
        ClientControl::Open { version: VERSION, cols, rows, term: "xterm-256color" }
    }
}

/// Control message from the server.
#[derive(Debug, Clone, PartialEq, Eq)]
pub enum ServerControl {
    Ready { session_id: String, cwd: String },
    Pong { timestamp: i64 },
    Cwd { path: String },
    Exit { code: Option<i32>, signal: Option<String> },
    Error { code: String, retryable: bool },
}

/// JSON name of a signal.
pub open spec fn signal_name(s: Signal) -> Seq<char> {
    match s {
        Signal::Interrupt => "SIGINT"@,
        Signal::Terminate => "SIGTERM"@,
        Signal::Hangup => "SIGHUP"@,
    }
}

/// The JSON text of a client control message: an object tagged by
/// `"type"`, its fields in declaration order.
pub open spec fn control_json(c: ClientControl) -> Seq<char> {
    match c {
        ClientControl::Open { version, cols, rows, term } => "{\"type\":\"open\",\"version\":"@ + dec(
            version as nat,
        ) + ",\"cols\":"@ + dec(cols as nat) + ",\"rows\":"@ + dec(rows as nat)
            + ",\"term\":\""@ + term@ + "\"}"@,
        ClientControl::Resize { cols, rows } => "{\"type\":\"resize\",\"cols\":"@ + dec(
            cols as nat,
        ) + ",\"rows\":"@ + dec(rows as nat) + "}"@,
        ClientControl::Signal { signal } => "{\"type\":\"signal\",\"signal\":\""@ + signal_name(
            signal,
        ) + "\"}"@,
        ClientControl::Ping { timestamp } => "{\"type\":\"ping\",\"timestamp\":"@ + int_dec(
            timestamp as int,
        ) + "}"@,
        ClientControl::Detach => "{\"type\":\"detach\"}"@,
    }
}

/// A JSON string body needs no escaping when it holds neither quotes,
/// backslashes nor control characters.
pub open spec fn json_plain(s: Seq<char>) -> bool {
    forall|i: int| 0 <= i < s.len() ==> #[trigger] s[i] != '\u{22}' && s[i] != '\u{5c}' && s[i] >= ' '
}

fn json_plain_exec(s: &str) -> (r: bool)
    ensures
        r == json_plain(s@),
{
    let v = crate::strs::chars_of(s);
    let mut i: usize = 0;
    while i < v.len()
        invariant
            i <= v@.len(),
            v@ == s@,
            forall|j: int| 0 <= j < i ==> #[trigger] v@[j] != '\u{22}' && v@[j] != '\u{5c}' && v@[j] >= ' ',
        decreases v@.len() - i,
    {
        let c = v[i];
        if c == '\u{22}' || c == '\u{5c}' || ' ' > c {
            return false;
        }
        i = i + 1;
    }
    true
}

/// Encodes a control message as JSON text. The only text field, the
/// terminal name of `Open`, is written as given when it needs no escaping;
/// otherwise the message is refused as an invalid control frame.
pub fn encode_control(control: &ClientControl) -> (r: Result<String, ProtocolError>)
    ensures
        match r {
            Ok(s) => s@ == control_json(*control),
            Err(e) => (*control matches ClientControl::Open { term, .. } && !json_plain(term@))
                && e is InvalidControlFrame,
        },
        (*control matches ClientControl::Open { term, .. } && !json_plain(term@)) || r is Ok,
{
    let mut v: Vec<char> = Vec::new();
    match control {
        ClientControl::Open { version, cols, rows, term } => {
            if !json_plain_exec(term) {
                return Err(ProtocolError::InvalidControlFrame(String::new()));
            }
            push_str(&mut v, "{\"type\":\"open\",\"version\":");
            push_dec(&mut v, *version as u64);
            push_str(&mut v, ",\"cols\":");
            push_dec(&mut v, *cols as u64);
            push_str(&mut v, ",\"rows\":");
            push_dec(&mut v, *rows as u64);
            push_str(&mut v, ",\"term\":\"");
            push_str(&mut v, term);
            push_str(&mut v, "\"}");
        },
        ClientControl::Resize { cols, rows } => {
            push_str(&mut v, "{\"type\":\"resize\",\"cols\":");
            push_dec(&mut v, *cols as u64);
            push_str(&mut v, ",\"rows\":");
            push_dec(&mut v, *rows as u64);
            push_str(&mut v, "}");
        },
        ClientControl::Signal { signal } => {
            push_str(&mut v, "{\"type\":\"signal\",\"signal\":\"");
            match signal {
                Signal::Interrupt => push_str(&mut v, "SIGINT"),
                Signal::Terminate => push_str(&mut v, "SIGTERM"),
                Signal::Hangup => push_str(&mut v, "SIGHUP"),
            }
            push_str(&mut v, "\"}");
        },
        ClientControl::Ping { timestamp } => {
            push_str(&mut v, "{\"type\":\"ping\",\"timestamp\":");
            push_int_dec(&mut v, *timestamp);
            push_str(&mut v, "}");
        },
        ClientControl::Detach => {
            push_str(&mut v, "{\"type\":\"detach\"}");
        },
    }
    assert(v@ =~= control_json(*control));
    Ok(string_of(v.as_slice()))
}

/// What `encode_input` gives for a payload.
pub open spec fn input_frame(payload: Seq<u8>) -> Result<Seq<u8>, ProtocolError> {
    if payload.len() > MAX_BINARY_PAYLOAD_BYTES {
        Err(ProtocolError::BinaryPayloadTooLarge)
    } else {
        Ok(seq![INPUT_CHANNEL] + payload)
    }
}

/// What `decode_server_binary` gives for a frame.
pub open spec fn server_frame(frame: Seq<u8>) -> Result<(ServerBinaryChannel, Seq<u8>), ProtocolError> {
    if frame.len() == 0 {
        Err(ProtocolError::EmptyBinaryFrame)
    } else if frame.len() - 1 > MAX_BINARY_PAYLOAD_BYTES {
        Err(ProtocolError::BinaryPayloadTooLarge)
    } else if frame[0] == OUTPUT_CHANNEL {
        Ok((ServerBinaryChannel::Output, frame.drop_first()))
    } else if frame[0] == STDERR_CHANNEL {
        Ok((ServerBinaryChannel::Stderr, frame.drop_first()))
    } else {
        Err(ProtocolError::UnsupportedBinaryChannel(frame[0]))
    }
}

/// What `decode_output` gives for a frame.
pub open spec fn output_frame(frame: Seq<u8>) -> Result<Seq<u8>, ProtocolError> {
    match server_frame(frame) {
        Ok((ServerBinaryChannel::Output, p)) => Ok(p),
        Ok((ServerBinaryChannel::Stderr, _)) => Err(
            ProtocolError::UnsupportedBinaryChannel(STDERR_CHANNEL),
        ),
        Err(e) => Err(e),
    }
}

/// Frames terminal input: the input channel byte, then the payload.
pub fn encode_input(payload: &[u8]) -> (r: Result<Vec<u8>, ProtocolError>)
    ensures
        match r {
            Ok(v) => input_frame(payload@) == Ok::<Seq<u8>, ProtocolError>(v@),
            Err(e) => input_frame(payload@) == Err::<Seq<u8>, ProtocolError>(e),
        },
{
    if payload.len() > MAX_BINARY_PAYLOAD_BYTES {
        return Err(ProtocolError::BinaryPayloadTooLarge);
    }
    let mut frame: Vec<u8> = Vec::new();
    frame.push(INPUT_CHANNEL);
    let mut i: usize = 0;
    while i < payload.len()
        invariant
            i <= payload@.len(),
            frame@ == seq![INPUT_CHANNEL] + payload@.subrange(0, i as int),
        decreases payload@.len() - i,
    {
        frame.push(payload[i]);
        assert(frame@ =~= seq![INPUT_CHANNEL] + payload@.subrange(0, i + 1));
        i = i + 1;
    }
    assert(payload@.subrange(0, payload@.len() as int) =~= payload@);
    Ok(frame)
}

/// Splits a server binary frame into its channel and payload.
pub fn decode_server_binary(frame: &[u8]) -> (r: Result<(ServerBinaryChannel, &[u8]), ProtocolError>)
    ensures
        match r {
            Ok((c, p)) => server_frame(frame@) == Ok::<(ServerBinaryChannel, Seq<u8>), ProtocolError>(
                (c, p@),
            ),
            Err(e) => server_frame(frame@) == Err::<(ServerBinaryChannel, Seq<u8>), ProtocolError>(
                e,
            ),
        },
{
    if frame.len() == 0 {
        return Err(ProtocolError::EmptyBinaryFrame);
    }
    let channel = frame[0];
    if frame.len() - 1 > MAX_BINARY_PAYLOAD_BYTES {
        return Err(ProtocolError::BinaryPayloadTooLarge);
    }
    let payload = vstd::slice::slice_subrange(frame, 1, frame.len());
    assert(payload@ =~= frame@.drop_first());
    if channel == OUTPUT_CHANNEL {
        Ok((ServerBinaryChannel::Output, payload))
    } else if channel == STDERR_CHANNEL {
        Ok((ServerBinaryChannel::Stderr, payload))
    } else {
        Err(ProtocolError::UnsupportedBinaryChannel(channel))
    }
}

/// The payload of a server output frame; stderr frames are refused.
pub fn decode_output(frame: &[u8]) -> (r: Result<&[u8], ProtocolError>)
    ensures
        match r {
            Ok(p) => output_frame(frame@) == Ok::<Seq<u8>, ProtocolError>(p@),
            Err(e) => output_frame(frame@) == Err::<Seq<u8>, ProtocolError>(e),
        },
{
    match decode_server_binary(frame) {
        Ok((channel, payload)) => {
            match channel {
                ServerBinaryChannel::Output => Ok(payload),
                ServerBinaryChannel::Stderr => Err(
                    ProtocolError::UnsupportedBinaryChannel(STDERR_CHANNEL),
                ),
            }
        },
        Err(e) => Err(e),
    }
}

/// A server output frame built from a payload within the limit decodes back
/// to that payload, on either channel.
pub proof fn lemma_server_frame_roundtrip(payload: Seq<u8>)
    requires
        payload.len() <= MAX_BINARY_PAYLOAD_BYTES,
    ensures
        output_frame(seq![OUTPUT_CHANNEL] + payload) == Ok::<Seq<u8>, ProtocolError>(payload),
        server_frame(seq![STDERR_CHANNEL] + payload) == Ok::<
            (ServerBinaryChannel, Seq<u8>),
            ProtocolError,
        >((ServerBinaryChannel::Stderr, payload)),
{
    assert((seq![OUTPUT_CHANNEL] + payload).drop_first() =~= payload);
    assert((seq![STDERR_CHANNEL] + payload).drop_first() =~= payload);
}

/// Input frames travel one way: a frame the client encodes is never accepted
/// as a server frame, and its payload follows the input channel byte.
pub proof fn lemma_input_frame_not_server_frame(payload: Seq<u8>)
    requires
        payload.len() <= MAX_BINARY_PAYLOAD_BYTES,
    ensures
        input_frame(payload) is Ok,
        server_frame(input_frame(payload)->Ok_0) == Err::<
            (ServerBinaryChannel, Seq<u8>),
            ProtocolError,
        >(ProtocolError::UnsupportedBinaryChannel(INPUT_CHANNEL)),
        input_frame(payload)->Ok_0.drop_first() == payload,
{
    assert((seq![INPUT_CHANNEL] + payload).drop_first() =~= payload);
}

} // verus!
