//! The agent relay: the frames the platform sends over the agent
//! connection, what the agent does with each of them, and the local
//! WebSocket tunnels it opens on the platform's behalf.
//!
//! Sockets, HTTP requests and timers are the caller's part: it hands each
//! event to [`RelayState::step`] or [`LocalTunnel::step`] and performs the
//! action that comes back.
use crate::agent::{is_loopback_base_url, loopback_url, websocket_base, ws_scheme};
use crate::quick_deploy::{key_map, key_map_of};
use crate::strs::{
    chars_of, dec, push_dec, lower_seq, push_all, push_str, seq_eq, string_of, to_lower, trim, trim_end_char,
    trim_end_matches_char, trim_ws,
};
use base64::Engine;
use vstd::prelude::*;

verus! {

/// The WebSocket subprotocol of the remote terminal.
pub const TERMINAL_SUBPROTOCOL: &'static str = "d1v-terminal.v1";

/// What `serde_json` writes for a string: the quoted, escaped JSON literal.
pub uninterp spec fn json_string_literal(s: Seq<char>) -> Seq<char>;

/// `serde_json::to_string` on a string slice; the result is named
/// [`json_string_literal`]. Writing a `str` into memory does not fail in
/// `serde_json` (its only errors come from the writer), so the error arm,
/// which yields an empty string, is not taken.
#[verifier::external_body]
pub(crate) fn json_string(s: &str) -> (r: String)
    ensures
        r@ == json_string_literal(s@),
{
    match serde_json::to_string(s) {
        Ok(t) => t,
        Err(_) => String::new(),
    }
}

/// The standard base64 text (with padding) of some bytes.
pub uninterp spec fn base64_standard(bytes: Seq<u8>) -> Seq<char>;

/// `base64::engine::general_purpose::STANDARD.encode`; the result is named
/// [`base64_standard`]. The engine panics only when the output length
/// overflows `usize`, which the bound rules out.
#[verifier::external_body]
fn base64_encode(bytes: &[u8]) -> (r: String)
    requires
        bytes@.len() <= usize::MAX / 2,
    ensures
        r@ == base64_standard(bytes@),
{
    base64::engine::general_purpose::STANDARD.encode(bytes)
}

/// What standard base64 decoding gives for a text: the bytes, or the
/// decoder's error message.
pub uninterp spec fn base64_standard_decoded(text: Seq<char>) -> Result<Seq<u8>, Seq<char>>;

/// `base64::engine::general_purpose::STANDARD.decode`, the error turned
/// into its message; the result is named [`base64_standard_decoded`].
#[verifier::external_body]
fn base64_decode(text: &str) -> (r: Result<Vec<u8>, String>)
    ensures
        match r {
            Ok(b) => base64_standard_decoded(text@) == Ok::<Seq<u8>, Seq<char>>(b@),
            Err(m) => base64_standard_decoded(text@) == Err::<Seq<u8>, Seq<char>>(m@),
        },
{
    match base64::engine::general_purpose::STANDARD.decode(text) {
        Ok(b) => Ok(b),
        Err(e) => Err(e.to_string()),
    }
}

/// An event the agent reports about one of its tunnels.
#[derive(Debug, Clone, PartialEq, Eq)]
pub enum TunnelEvent {
    Open,
    Close,
    Text(String),
    Bytes(Vec<u8>),
    Error(String),
}

/// Closing part shared by every tunnel event.
pub open spec fn event_tail(tunnel_id: Seq<char>) -> Seq<char> {
    ",\"tunnel_id\":"@ + json_string_literal(tunnel_id) + ",\"type\":\"ws_event\"}"@
}

/// The JSON text of a tunnel event: an object of type `ws_event`, its keys
/// in lexicographic order.
pub open spec fn event_json(tunnel_id: Seq<char>, e: TunnelEvent) -> Seq<char> {
    match e {
        TunnelEvent::Open => "{\"event\":\"open\""@ + event_tail(tunnel_id),
        TunnelEvent::Close => "{\"event\":\"close\""@ + event_tail(tunnel_id),
        TunnelEvent::Text(x) => "{\"event\":\"text\",\"text\":"@ + json_string_literal(x@)
            + event_tail(tunnel_id),
        TunnelEvent::Bytes(b) => "{\"bytes_base64\":"@ + json_string_literal(base64_standard(b@))
            + ",\"event\":\"bytes\""@ + event_tail(tunnel_id),
        TunnelEvent::Error(d) => error_event_json(tunnel_id, d@),
    }
}

/// The JSON text of an `error` event with the given detail.
pub open spec fn error_event_json(tunnel_id: Seq<char>, detail: Seq<char>) -> Seq<char> {
    "{\"detail\":"@ + json_string_literal(detail) + ",\"event\":\"error\""@ + event_tail(tunnel_id)
}

pub open spec fn event_fits(e: TunnelEvent) -> bool {
    e matches TunnelEvent::Bytes(b) ==> b@.len() <= usize::MAX / 2
}

/// The text message that reports `event` for tunnel `tunnel_id`.
pub fn tunnel_event_json(tunnel_id: &str, event: &TunnelEvent) -> (r: String)
    requires
        event_fits(*event),
    ensures
        r@ == event_json(tunnel_id@, *event),
{
    let mut v: Vec<char> = Vec::new();
    match event {
        TunnelEvent::Open => push_str(&mut v, "{\"event\":\"open\""),
        TunnelEvent::Close => push_str(&mut v, "{\"event\":\"close\""),
        TunnelEvent::Text(x) => {
            push_str(&mut v, "{\"event\":\"text\",\"text\":");
            let q = json_string(x.as_str());
            push_str(&mut v, q.as_str());
        },
        TunnelEvent::Bytes(b) => {
            push_str(&mut v, "{\"bytes_base64\":");
            let e = base64_encode(b.as_slice());
            let q = json_string(e.as_str());
            push_str(&mut v, q.as_str());
            push_str(&mut v, ",\"event\":\"bytes\"");
        },
        TunnelEvent::Error(d) => {
            push_str(&mut v, "{\"detail\":");
            let q = json_string(d.as_str());
            push_str(&mut v, q.as_str());
            push_str(&mut v, ",\"event\":\"error\"");
        },
    }
    push_str(&mut v, ",\"tunnel_id\":");
    let t = json_string(tunnel_id);
    push_str(&mut v, t.as_str());
    push_str(&mut v, ",\"type\":\"ws_event\"}");
    assert(v@ =~= event_json(tunnel_id@, *event));
    string_of(v.as_slice())
}

} // verus!

verus! {

/// A handshake header the agent passes on to a local WebSocket; every
/// other header of the request is dropped.
#[derive(Debug, Clone, Copy, PartialEq, Eq)]
pub enum ForwardedHeader {
    Origin,
    ShellTicket,
}

/// Which forwarded header a request header is, by its trimmed name in any
/// ASCII case.
pub open spec fn forwarded_header(name: Seq<char>) -> Option<ForwardedHeader> {
    let n = lower_seq(trim_ws(name));
    if n == "origin"@ {
        Some(ForwardedHeader::Origin)
    } else if n == "x-d1v-shell-ticket"@ {
        Some(ForwardedHeader::ShellTicket)
    } else {
        None
    }
}

/// The headers that are passed on, in the order given.
pub open spec fn forwarded_headers(hs: Seq<(Seq<char>, Seq<char>)>) -> Seq<(ForwardedHeader, Seq<char>)>
    decreases hs.len(),
{
    if hs.len() == 0 {
        seq![]
    } else {
        let rest = forwarded_headers(hs.drop_last());
        match forwarded_header(hs.last().0) {
            Some(h) => rest.push((h, hs.last().1)),
            None => rest,
        }
    }
}

pub open spec fn string_pairs(v: Seq<(String, String)>) -> Seq<(Seq<char>, Seq<char>)> {
    Seq::new(v.len(), |i: int| (v[i].0@, v[i].1@))
}

pub open spec fn header_pairs(v: Seq<(ForwardedHeader, String)>) -> Seq<(ForwardedHeader, Seq<char>)> {
    Seq::new(v.len(), |i: int| (v[i].0, v[i].1@))
}

pub open spec fn string_views(v: Seq<String>) -> Seq<Seq<char>> {
    Seq::new(v.len(), |i: int| v[i]@)
}

/// The headers of a tunnel request that are passed on to the local socket.
pub fn forward_headers(headers: &Vec<(String, String)>) -> (r: Vec<(ForwardedHeader, String)>)
    ensures
        header_pairs(r@) == forwarded_headers(string_pairs(headers@)),
{
    let ghost hs = string_pairs(headers@);
    let origin = chars_of("origin");
    let ticket = chars_of("x-d1v-shell-ticket");
    let mut out: Vec<(ForwardedHeader, String)> = Vec::new();
    let mut i: usize = 0;
    assert(hs.take(0) =~= Seq::<(Seq<char>, Seq<char>)>::empty());
    while i < headers.len()
        invariant
            i <= headers@.len(),
            hs == string_pairs(headers@),
            origin@ == "origin"@,
            ticket@ == "x-d1v-shell-ticket"@,
            header_pairs(out@) == forwarded_headers(hs.take(i as int)),
        decreases headers@.len() - i,
    {
        assert(hs.take(i + 1).drop_last() =~= hs.take(i as int));
        assert(hs.take(i + 1).last() == hs[i as int]);
        let name = to_lower(trim(chars_of(headers[i].0.as_str()).as_slice()).as_slice());
        let value = headers[i].1.clone();
        if seq_eq(name.as_slice(), origin.as_slice()) {
            out.push((ForwardedHeader::Origin, value));
        } else if seq_eq(name.as_slice(), ticket.as_slice()) {
            out.push((ForwardedHeader::ShellTicket, value));
        }
        assert(header_pairs(out@) =~= forwarded_headers(hs.take(i + 1)));
        i = i + 1;
    }
    assert(hs.take(headers@.len() as int) =~= hs);
    out
}

/// A `ws_open` frame: the platform asks for a WebSocket to a local service.
#[derive(Debug, Clone)]
pub struct TunnelRequest {
    pub tunnel_id: String,
    pub session_id: String,
    pub target_base_url: Option<String>,
    pub websocket_path: Option<String>,
    pub headers: Vec<(String, String)>,
    pub subprotocols: Vec<String>,
}

/// How to open a local tunnel.
#[derive(Debug, Clone)]
pub struct TunnelPlan {
    /// The WebSocket URL to connect to.
    pub url: String,
    /// Handshake headers to set, in order (a later one replaces an earlier
    /// one of the same name).
    pub headers: Vec<(ForwardedHeader, String)>,
    /// Whether the terminal subprotocol is asked for, and required of the
    /// answer.
    pub terminal: bool,
}

pub open spec fn opt_view(o: Option<String>) -> Option<Seq<char>> {
    match o {
        Some(s) => Some(s@),
        None => None,
    }
}

/// A tunnel asks for the terminal when its subprotocols name it.
pub open spec fn wants_terminal(subprotocols: Seq<Seq<char>>) -> bool {
    subprotocols.contains("d1v-terminal.v1"@)
}

/// The service a tunnel goes to: the requested base URL, else the runtime's.
pub open spec fn tunnel_target(opcode_base: Seq<char>, target: Option<Seq<char>>) -> Seq<char> {
    match target {
        Some(t) => t,
        None => opcode_base,
    }
}

/// The path of a tunnel: the requested one unless it is blank, else the
/// session's path under `fallback_prefix`.
pub open spec fn tunnel_path(
    session_id: Seq<char>,
    websocket_path: Option<Seq<char>>,
    fallback_prefix: Seq<char>,
) -> Seq<char> {
    match websocket_path {
        Some(p) => if trim_ws(p).len() > 0 {
            p
        } else {
            fallback_prefix + session_id
        },
        None => fallback_prefix + session_id,
    }
}

/// The detail reported when a terminal tunnel points off this machine.
pub open spec fn loopback_refusal() -> Seq<char> {
    "terminal_target_must_be_loopback"@
}

/// What opening a tunnel comes to: a terminal tunnel must target this
/// machine; the URL is the target with a WebSocket scheme and no trailing
/// slash, followed by the path.
pub open spec fn tunnel_plan_of(
    opcode_base: Seq<char>,
    fallback_prefix: Seq<char>,
    req: TunnelRequest,
) -> Result<(Seq<char>, Seq<(ForwardedHeader, Seq<char>)>, bool), Seq<char>> {
    let terminal = wants_terminal(string_views(req.subprotocols@));
    let target = tunnel_target(opcode_base, opt_view(req.target_base_url));
    if terminal && !loopback_url(target) {
        Err(loopback_refusal())
    } else {
        Ok(
            (
                trim_end_char(ws_scheme(target), '/') + tunnel_path(
                    req.session_id@,
                    opt_view(req.websocket_path),
                    fallback_prefix,
                ),
                forwarded_headers(string_pairs(req.headers@)),
                terminal,
            ),
        )
    }
}

fn contains_string(v: &Vec<String>, s: &str) -> (r: bool)
    ensures
        r == string_views(v@).contains(s@),
{
    let mut i: usize = 0;
    while i < v.len()
        invariant
            i <= v@.len(),
            forall|j: int| 0 <= j < i ==> string_views(v@)[j] != s@,
        decreases v@.len() - i,
    {
        if seq_eq(chars_of(v[i].as_str()).as_slice(), chars_of(s).as_slice()) {
            assert(string_views(v@)[i as int] == s@);
            return true;
        }
        i = i + 1;
    }
    false
}

/// Plans the tunnel a `ws_open` frame asks for; `opcode_base` is the
/// runtime's own URL, `fallback_prefix` the path under which it serves a
/// session's socket. The error is the detail to report.
pub fn plan_local_tunnel(opcode_base: &str, fallback_prefix: &str, req: &TunnelRequest) -> (r:
    Result<TunnelPlan, String>)
    ensures
        match r {
            Ok(p) => tunnel_plan_of(opcode_base@, fallback_prefix@, *req) == Ok::<
                (Seq<char>, Seq<(ForwardedHeader, Seq<char>)>, bool),
                Seq<char>,
            >((p.url@, header_pairs(p.headers@), p.terminal)),
            Err(d) => tunnel_plan_of(opcode_base@, fallback_prefix@, *req) == Err::<
                (Seq<char>, Seq<(ForwardedHeader, Seq<char>)>, bool),
                Seq<char>,
            >(d@),
        },
{
    proof {
        reveal_strlit("d1v-terminal.v1");
    }
    let terminal = contains_string(&req.subprotocols, TERMINAL_SUBPROTOCOL);
    let target: String = match &req.target_base_url {
        Some(t) => t.clone(),
        None => opcode_base.to_owned(),
    };
    if terminal && !is_loopback_base_url(target.as_str()) {
        return Err("terminal_target_must_be_loopback".to_owned());
    }
    let base = websocket_base(target.as_str());
    let base = trim_end_matches_char(chars_of(base.as_str()).as_slice(), '/');
    let mut url = base;
    let blank = match &req.websocket_path {
        Some(p) => trim(chars_of(p.as_str()).as_slice()).len() == 0,
        None => true,
    };
    match &req.websocket_path {
        Some(p) if !blank => push_str(&mut url, p.as_str()),
        _ => {
            push_str(&mut url, fallback_prefix);
            push_str(&mut url, req.session_id.as_str());
        },
    }
    let headers = forward_headers(&req.headers);
    let ghost expected = tunnel_plan_of(opcode_base@, fallback_prefix@, *req);
    assert(url@ =~= expected->Ok_0.0);
    Ok(TunnelPlan { url: string_of(url.as_slice()), headers, terminal })
}

} // verus!

verus! {

/// Where a local tunnel is in its life.
#[derive(Debug, Clone, Copy, PartialEq, Eq)]
pub enum TunnelPhase {
    Connecting,
    Open,
    Done,
}

/// What the caller saw while opening or reading a local tunnel.
#[derive(Debug, Clone)]
pub enum UpstreamMessage {
    Text(String),
    Binary(Vec<u8>),
    /// A close frame, or the end of the stream.
    Closed,
    /// A ping, pong or raw frame: nothing to report.
    Other,
    Failed(String),
}

#[derive(Debug, Clone)]
pub enum TunnelInput {
    /// The handshake request could not be built; the detail says why.
    RequestInvalid(String),
    /// Connecting failed with this message.
    ConnectFailed(String),
    /// The socket is up; the subprotocol the service answered with.
    Connected(Option<String>),
    Upstream(UpstreamMessage),
}

/// A tunnel the agent opens on the platform's behalf.
#[derive(Debug, Clone)]
pub struct LocalTunnel {
    pub tunnel_id: String,
    pub terminal: bool,
    pub phase: TunnelPhase,
}

/// What one step of a tunnel asks of the caller: events to report, in
/// order, and whether to add the tunnel to, or take it out of, the set of
/// tunnels the relay writes to.
#[derive(Debug, Clone)]
pub struct TunnelOutput {
    pub events: Vec<TunnelEvent>,
    pub register: bool,
    pub deregister: bool,
}

/// A tunnel event as plain values: a tag (open, close, text, bytes, error
/// in that order from 0) with its text or bytes.
pub open spec fn event_view(e: TunnelEvent) -> (int, Seq<char>, Seq<u8>) {
    match e {
        TunnelEvent::Open => (0, seq![], seq![]),
        TunnelEvent::Close => (1, seq![], seq![]),
        TunnelEvent::Text(t) => (2, t@, seq![]),
        TunnelEvent::Bytes(b) => (3, seq![], b@),
        TunnelEvent::Error(d) => (4, d@, seq![]),
    }
}

pub open spec fn events_view(v: Seq<TunnelEvent>) -> Seq<(int, Seq<char>, Seq<u8>)> {
    Seq::new(v.len(), |i: int| event_view(v[i]))
}

pub open spec fn ev_open() -> (int, Seq<char>, Seq<u8>) {
    (0, seq![], seq![])
}

pub open spec fn ev_close() -> (int, Seq<char>, Seq<u8>) {
    (1, seq![], seq![])
}

pub open spec fn ev_error(d: Seq<char>) -> (int, Seq<char>, Seq<u8>) {
    (4, d, seq![])
}

/// The detail reported when a terminal service answers without the
/// terminal subprotocol.
pub open spec fn subprotocol_mismatch() -> Seq<char> {
    "upstream_websocket_subprotocol_mismatch"@
}

/// One step of a tunnel: the next phase, the events, and whether it is
/// registered or deregistered. A tunnel is registered when its handshake is
/// accepted and reports `open`; once registered, it ends by reporting
/// `close` and being deregistered. A connection that fails is reported and
/// closed; a request that cannot be made, or a terminal handshake without
/// the terminal subprotocol, is reported as an error only.
pub open spec fn tunnel_next(phase: TunnelPhase, terminal: bool, input: TunnelInput) -> (
    TunnelPhase,
    Seq<(int, Seq<char>, Seq<u8>)>,
    bool,
    bool,
) {
    match phase {
        TunnelPhase::Connecting => match input {
            TunnelInput::RequestInvalid(m) => (TunnelPhase::Done, seq![ev_error(m@)], false, false),
            TunnelInput::ConnectFailed(m) => (
                TunnelPhase::Done,
                seq![ev_error(m@), ev_close()],
                false,
                true,
            ),
            TunnelInput::Connected(p) => if terminal && opt_view(p) != Some("d1v-terminal.v1"@) {
                (TunnelPhase::Done, seq![ev_error(subprotocol_mismatch())], false, false)
            } else {
                (TunnelPhase::Open, seq![ev_open()], true, false)
            },
            TunnelInput::Upstream(_) => (TunnelPhase::Connecting, seq![], false, false),
        },
        TunnelPhase::Open => match input {
            TunnelInput::Upstream(m) => match m {
                UpstreamMessage::Text(t) => (TunnelPhase::Open, seq![(2, t@, seq![])], false, false),
                UpstreamMessage::Binary(b) => (
                    TunnelPhase::Open,
                    seq![(3, seq![], b@)],
                    false,
                    false,
                ),
                UpstreamMessage::Other => (TunnelPhase::Open, seq![], false, false),
                UpstreamMessage::Closed => (TunnelPhase::Done, seq![ev_close()], false, true),
                UpstreamMessage::Failed(e) => (
                    TunnelPhase::Done,
                    seq![ev_error(e@), ev_close()],
                    false,
                    true,
                ),
            },
            _ => (TunnelPhase::Open, seq![], false, false),
        },
        TunnelPhase::Done => (TunnelPhase::Done, seq![], false, false),
    }
}

impl LocalTunnel {
    /// A tunnel about to connect as `plan` says.
    pub fn new(tunnel_id: String, plan: &TunnelPlan) -> (r: Self)
        ensures
            r.tunnel_id == tunnel_id,
            r.terminal == plan.terminal,
            r.phase == TunnelPhase::Connecting,
    {
        LocalTunnel { tunnel_id, terminal: plan.terminal, phase: TunnelPhase::Connecting }
    }

    pub fn step(&mut self, input: TunnelInput) -> (r: TunnelOutput)
        ensures
            final(self).tunnel_id == old(self).tunnel_id,
            final(self).terminal == old(self).terminal,
            (final(self).phase, events_view(r.events@), r.register, r.deregister) == tunnel_next(
                old(self).phase,
                old(self).terminal,
                input,
            ),
    {
        let mut events: Vec<TunnelEvent> = Vec::new();
        let mut register = false;
        let mut deregister = false;
        match self.phase {
            TunnelPhase::Connecting => match input {
                TunnelInput::RequestInvalid(m) => {
                    events.push(TunnelEvent::Error(m));
                    self.phase = TunnelPhase::Done;
                },
                TunnelInput::ConnectFailed(m) => {
                    events.push(TunnelEvent::Error(m));
                    events.push(TunnelEvent::Close);
                    deregister = true;
                    self.phase = TunnelPhase::Done;
                },
                TunnelInput::Connected(p) => {
                    let agreed = match &p {
                        Some(s) => crate::strs::str_eq(s.as_str(), TERMINAL_SUBPROTOCOL),
                        None => false,
                    };
                    proof {
                        reveal_strlit("d1v-terminal.v1");
                    }
                    if self.terminal && !agreed {
                        events.push(
                            TunnelEvent::Error("upstream_websocket_subprotocol_mismatch".to_owned()),
                        );
                        self.phase = TunnelPhase::Done;
                    } else {
                        events.push(TunnelEvent::Open);
                        register = true;
                        self.phase = TunnelPhase::Open;
                    }
                },
                TunnelInput::Upstream(_) => {},
            },
            TunnelPhase::Open => match input {
                TunnelInput::Upstream(m) => match m {
                    UpstreamMessage::Text(t) => events.push(TunnelEvent::Text(t)),
                    UpstreamMessage::Binary(b) => events.push(TunnelEvent::Bytes(b)),
                    UpstreamMessage::Other => {},
                    UpstreamMessage::Closed => {
                        events.push(TunnelEvent::Close);
                        deregister = true;
                        self.phase = TunnelPhase::Done;
                    },
                    UpstreamMessage::Failed(e) => {
                        events.push(TunnelEvent::Error(e));
                        events.push(TunnelEvent::Close);
                        deregister = true;
                        self.phase = TunnelPhase::Done;
                    },
                },
                _ => {},
            },
            TunnelPhase::Done => {},
        }
        let r = TunnelOutput { events, register, deregister };
        assert(events_view(r.events@) =~= tunnel_next(old(self).phase, old(self).terminal, input).1);
        r
    }
}

/// A tunnel is registered exactly when its handshake is accepted, and then
/// `open` is the one event it reports.
pub proof fn lemma_tunnel_registers_on_open(phase: TunnelPhase, terminal: bool, input: TunnelInput)
    ensures
        tunnel_next(phase, terminal, input).2 <==> (phase == TunnelPhase::Connecting
            && tunnel_next(phase, terminal, input).0 == TunnelPhase::Open),
        tunnel_next(phase, terminal, input).2 ==> tunnel_next(phase, terminal, input).1 == seq![
            ev_open(),
        ],
{
}

/// A tunnel is deregistered exactly when its last reported event is
/// `close`, and that happens only as it ends.
pub proof fn lemma_tunnel_close_deregisters(phase: TunnelPhase, terminal: bool, input: TunnelInput)
    ensures
        ({
            let (next, events, _, deregister) = tunnel_next(phase, terminal, input);
            &&& deregister <==> (events.len() > 0 && events.last() == ev_close())
            &&& deregister ==> next == TunnelPhase::Done && phase != TunnelPhase::Done
        }),
{
}

/// A registered tunnel that ends reports `close` and is deregistered.
pub proof fn lemma_open_tunnel_ends_closed(terminal: bool, input: TunnelInput)
    ensures
        tunnel_next(TunnelPhase::Open, terminal, input).0 == TunnelPhase::Done ==> {
            &&& tunnel_next(TunnelPhase::Open, terminal, input).3
            &&& tunnel_next(TunnelPhase::Open, terminal, input).1.last() == ev_close()
        },
{
}

/// An ended tunnel stays ended and reports nothing more.
pub proof fn lemma_done_tunnel_is_silent(terminal: bool, input: TunnelInput)
    ensures
        tunnel_next(TunnelPhase::Done, terminal, input) == (
            TunnelPhase::Done,
            Seq::<(int, Seq<char>, Seq<u8>)>::empty(),
            false,
            false,
        ),
{
}

} // verus!

verus! {

/// A `request` frame: an HTTP request the platform asks the agent to make
/// to a local service. The JSON body, the query and the request id stay
/// with the caller, which only says whether a JSON body was given.
#[derive(Debug, Clone)]
pub struct HttpRelayRequest {
    pub target_base_url: Option<String>,
    pub method: Option<String>,
    pub path: Option<String>,
    /// The headers whose values are strings, in the frame's order.
    pub headers: Vec<(String, String)>,
    pub has_json: bool,
    pub body_base64: Option<String>,
}

/// The body a relayed request carries.
#[derive(Debug, Clone)]
pub enum RelayBody {
    Empty,
    /// The frame's JSON body.
    Json,
    Bytes(Vec<u8>),
}

/// How to make a relayed request.
#[derive(Debug, Clone)]
pub struct HttpRelayPlan {
    pub url: String,
    /// The method's name; one that is not a valid method is sent as `GET`.
    pub method: String,
    pub headers: Vec<(String, String)>,
    pub body: RelayBody,
}

/// The reply to a request that cannot be made.
#[derive(Debug, Clone, PartialEq, Eq)]
pub struct HttpRelayFailure {
    pub status_code: u16,
    pub message: String,
}

/// The service a request goes to: the requested base URL unless it is
/// blank, else the runtime's.
pub open spec fn http_target(default_base: Seq<char>, target: Option<Seq<char>>) -> Seq<char> {
    match target {
        Some(t) => if trim_ws(t).len() > 0 {
            t
        } else {
            default_base
        },
        None => default_base,
    }
}

pub open spec fn or_default(o: Option<Seq<char>>, d: Seq<char>) -> Seq<char> {
    match o {
        Some(s) => s,
        None => d,
    }
}

/// The URL of a relayed request: the target without trailing slashes,
/// then the path (`/` when none is given).
pub open spec fn http_url(default_base: Seq<char>, req: HttpRelayRequest) -> Seq<char> {
    trim_end_char(http_target(default_base, opt_view(req.target_base_url)), '/') + or_default(
        opt_view(req.path),
        "/"@,
    )
}

/// Whether a plan carries what the request asks for: its URL, its method
/// (`GET` when none is given), its headers unchanged and its body, the JSON
/// body before any base64 one.
pub open spec fn http_plan_matches(
    default_base: Seq<char>,
    req: HttpRelayRequest,
    r: Result<HttpRelayPlan, HttpRelayFailure>,
) -> bool {
    match r {
        Ok(p) => {
            &&& p.url@ == http_url(default_base, req)
            &&& p.method@ == or_default(opt_view(req.method), "GET"@)
            &&& p.headers@ == req.headers@
            &&& if req.has_json {
                p.body is Json
            } else {
                match req.body_base64 {
                    Some(b) => p.body matches RelayBody::Bytes(bytes)
                        && base64_standard_decoded(b@) == Ok::<Seq<u8>, Seq<char>>(bytes@),
                    None => p.body is Empty,
                }
            }
        },
        Err(f) => {
            &&& !req.has_json
            &&& req.body_base64 matches Some(b) && base64_standard_decoded(b@) == Err::<
                Seq<u8>,
                Seq<char>,
            >(f.message@)
            &&& f.status_code == 400
        },
    }
}

/// Plans the request a `request` frame asks for, `default_base` being the
/// runtime's own URL. A base64 body that does not decode is answered with
/// status 400 and the decoder's message.
pub fn plan_http_relay(default_base: &str, req: HttpRelayRequest) -> (r: Result<
    HttpRelayPlan,
    HttpRelayFailure,
>)
    ensures
        http_plan_matches(default_base@, req, r),
{
    let ghost req0 = req;
    let HttpRelayRequest { target_base_url, method, path, headers, has_json, body_base64 } = req;
    let target: Vec<char> = match &target_base_url {
        Some(t) => {
            let c = chars_of(t.as_str());
            if trim(c.as_slice()).len() > 0 {
                c
            } else {
                chars_of(default_base)
            }
        },
        None => chars_of(default_base),
    };
    let mut url = trim_end_matches_char(target.as_slice(), '/');
    match &path {
        Some(p) => push_str(&mut url, p.as_str()),
        None => push_str(&mut url, "/"),
    }
    let method = match method {
        Some(m) => m,
        None => "GET".to_owned(),
    };
    let body = if has_json {
        RelayBody::Json
    } else {
        match &body_base64 {
            Some(b) => match base64_decode(b.as_str()) {
                Ok(bytes) => RelayBody::Bytes(bytes),
                Err(message) => {
                    return Err(HttpRelayFailure { status_code: 400, message });
                },
            },
            None => RelayBody::Empty,
        }
    };
    assert(url@ =~= http_url(default_base@, req0));
    Ok(HttpRelayPlan { url: string_of(url.as_slice()), method, headers, body })
}

/// What `serde_json` writes back for a JSON document read from bytes: its
/// compact text, or nothing when the bytes are not one JSON document.
pub uninterp spec fn json_reserialized(bytes: Seq<u8>) -> Option<Seq<char>>;

/// `serde_json::from_slice` into a `serde_json::Value`, written back with
/// its `to_string`; the result is named [`json_reserialized`]. Neither
/// call panics: a document that does not parse is an error, and writing a
/// `Value` into a string cannot fail.
#[verifier::external_body]
fn reserialize_json(bytes: &[u8]) -> (r: Option<String>)
    ensures
        match r {
            Some(t) => json_reserialized(bytes@) == Some(t@),
            None => json_reserialized(bytes@) is None,
        },
{
    match serde_json::from_slice::<serde_json::Value>(bytes) {
        Ok(v) => Some(v.to_string()),
        Err(_) => None,
    }
}

/// Whether a header value is text: every byte a tab or a visible ASCII
/// character.
pub open spec fn header_is_text(v: Seq<u8>) -> bool {
    forall|i: int| 0 <= i < v.len() ==> (v[i] == 9 || (32 <= v[i] && v[i] <= 126))
}

/// ASCII bytes read as characters.
pub open spec fn ascii_text(v: Seq<u8>) -> Seq<char> {
    Seq::new(v.len(), |i: int| v[i] as char)
}

pub open spec fn byte_pairs(v: Seq<(String, Vec<u8>)>) -> Seq<(Seq<char>, Seq<u8>)> {
    Seq::new(v.len(), |i: int| (v[i].0@, v[i].1@))
}

/// The headers of a response whose values are text, in their order.
pub open spec fn text_headers(hs: Seq<(Seq<char>, Seq<u8>)>) -> Seq<(Seq<char>, Seq<char>)>
    decreases hs.len(),
{
    if hs.len() == 0 {
        Seq::empty()
    } else if header_is_text(hs.last().1) {
        text_headers(hs.drop_last()).push((hs.last().0, ascii_text(hs.last().1)))
    } else {
        text_headers(hs.drop_last())
    }
}

/// The members of a compact JSON object of strings, in order.
pub open spec fn json_members(m: Seq<(Seq<char>, Seq<char>)>) -> Seq<char>
    decreases m.len(),
{
    if m.len() == 0 {
        Seq::empty()
    } else if m.len() == 1 {
        json_string_literal(m[0].0) + ":"@ + json_string_literal(m[0].1)
    } else {
        json_members(m.drop_last()) + ","@ + json_string_literal(m.last().0) + ":"@
            + json_string_literal(m.last().1)
    }
}

/// The `body` of a relayed response: the body's JSON written back
/// compactly, or `null` when it is empty or not JSON.
pub open spec fn response_body(body: Seq<u8>) -> Seq<char> {
    if body.len() == 0 {
        "null"@
    } else {
        match json_reserialized(body) {
            Some(t) => t,
            None => "null"@,
        }
    }
}

/// The closing members of every reply to a relayed request.
pub open spec fn response_tail(request_id: Seq<char>, status: u16, message: Seq<char>) -> Seq<char> {
    ",\"message\":"@ + json_string_literal(message) + ",\"request_id\":"@ + request_id
        + ",\"status_code\":"@ + dec(status as nat) + ",\"type\":\"response\"}"@
}

/// The `response` message for a relayed request that was answered: the
/// body as JSON and in base64, the text headers as an object (sorted by
/// name, the last value of a repeated name kept), and the status with its
/// reason phrase, `ok` when the status has none. Keys are in lexicographic
/// order.
pub open spec fn relay_response_text(
    request_id: Seq<char>,
    status: u16,
    reason: Option<Seq<char>>,
    headers: Seq<(Seq<char>, Seq<u8>)>,
    body: Seq<u8>,
) -> Seq<char> {
    "{\"body\":"@ + response_body(body) + ",\"body_base64\":"@ + json_string_literal(
        base64_standard(body),
    ) + ",\"headers\":{"@ + json_members(key_map_of(text_headers(headers))) + "}"@
        + response_tail(request_id, status, or_default(reason, "ok"@))
}

/// The `response` message for a relayed request that failed: no body, no
/// headers, and the failure's status and message.
pub open spec fn relay_failure_text(request_id: Seq<char>, status: u16, message: Seq<char>) -> Seq<
    char,
> {
    "{\"body\":null,\"body_base64\":null,\"headers\":{}"@ + response_tail(request_id, status, message)
}

fn push_response_tail(v: &mut Vec<char>, request_id: &str, status: u16, message: &str)
    ensures
        final(v)@ == old(v)@ + response_tail(request_id@, status, message@),
{
    let ghost start = v@;
    push_str(v, ",\"message\":");
    let q = json_string(message);
    push_str(v, q.as_str());
    push_str(v, ",\"request_id\":");
    push_str(v, request_id);
    push_str(v, ",\"status_code\":");
    push_dec(v, status as u64);
    push_str(v, ",\"type\":\"response\"}");
    assert(v@ =~= start + response_tail(request_id@, status, message@));
}

/// A header value as a string, if it is text.
fn header_text(v: &Vec<u8>) -> (r: Option<String>)
    ensures
        match r {
            Some(s) => header_is_text(v@) && s@ == ascii_text(v@),
            None => !header_is_text(v@),
        },
{
    let mut out: Vec<char> = Vec::new();
    let mut i: usize = 0;
    while i < v.len()
        invariant
            i <= v@.len(),
            out@ == ascii_text(v@.take(i as int)),
            forall|j: int| 0 <= j < i ==> (v@[j] == 9 || (32 <= v@[j] && v@[j] <= 126)),
        decreases v@.len() - i,
    {
        let b = v[i];
        if !(b == 9 || (32 <= b && b <= 126)) {
            return None;
        }
        out.push(b as char);
        assert(ascii_text(v@.take(i + 1)) =~= ascii_text(v@.take(i as int)).push(b as char));
        i = i + 1;
    }
    assert(v@.take(v@.len() as int) =~= v@);
    Some(string_of(out.as_slice()))
}

/// The `response` message for a relayed request that was answered with
/// `status` (whose reason phrase is `reason`), `headers` (names, and
/// values as bytes) and `body`. `request_id` is the JSON text of the
/// request's id.
pub fn http_relay_response(
    request_id: &str,
    status: u16,
    reason: Option<&str>,
    headers: &Vec<(String, Vec<u8>)>,
    body: &[u8],
) -> (r: String)
    requires
        body@.len() <= usize::MAX / 2,
    ensures
        r@ == relay_response_text(
            request_id@,
            status,
            match reason {
                Some(t) => Some(t@),
                None => None,
            },
            byte_pairs(headers@),
            body@,
        ),
{
    let ghost hs = byte_pairs(headers@);
    let mut texts: Vec<(String, String)> = Vec::new();
    let mut i: usize = 0;
    while i < headers.len()
        invariant
            i <= headers@.len(),
            hs == byte_pairs(headers@),
            string_pairs(texts@) == text_headers(hs.take(i as int)),
        decreases headers@.len() - i,
    {
        assert(hs.take(i + 1).drop_last() =~= hs.take(i as int));
        assert(hs.take(i + 1).last() == hs[i as int]);
        match header_text(&headers[i].1) {
            Some(t) => {
                texts.push((headers[i].0.clone(), t));
                assert(string_pairs(texts@) =~= text_headers(hs.take(i as int)).push(
                    (headers@[i as int].0@, ascii_text(headers@[i as int].1@)),
                ));
            },
            None => {},
        }
        i = i + 1;
    }
    assert(hs.take(headers@.len() as int) =~= hs);
    let m = key_map(&texts);
    let ghost ms = string_pairs(m@);
    let mut v: Vec<char> = Vec::new();
    push_str(&mut v, "{\"body\":");
    if body.len() == 0 {
        push_str(&mut v, "null");
    } else {
        match reserialize_json(body) {
            Some(t) => push_str(&mut v, t.as_str()),
            None => push_str(&mut v, "null"),
        }
    }
    push_str(&mut v, ",\"body_base64\":");
    let encoded = base64_encode(body);
    let q = json_string(encoded.as_str());
    push_str(&mut v, q.as_str());
    push_str(&mut v, ",\"headers\":{");
    let ghost start = v@;
    let mut k: usize = 0;
    while k < m.len()
        invariant
            k <= m@.len(),
            ms == string_pairs(m@),
            v@ == start + json_members(ms.take(k as int)),
        decreases m@.len() - k,
    {
        if k > 0 {
            push_str(&mut v, ",");
        }
        let qk = json_string(m[k].0.as_str());
        push_str(&mut v, qk.as_str());
        push_str(&mut v, ":");
        let qv = json_string(m[k].1.as_str());
        push_str(&mut v, qv.as_str());
        assert(ms.take(k + 1).drop_last() =~= ms.take(k as int));
        assert(ms.take(k + 1).last() == ms[k as int]);
        k = k + 1;
    }
    assert(ms.take(m@.len() as int) =~= ms);
    push_str(&mut v, "}");
    let message = match reason {
        Some(t) => t,
        None => "ok",
    };
    push_response_tail(&mut v, request_id, status, message);
    proof {
        reveal_strlit("ok");
    }
    string_of(v.as_slice())
}

/// The `response` message for a relayed request that could not be made
/// or whose response could not be read, with this status and message.
/// `request_id` is the JSON text of the request's id.
pub fn http_relay_failure(request_id: &str, status: u16, message: &str) -> (r: String)
    ensures
        r@ == relay_failure_text(request_id@, status, message@),
{
    let mut v: Vec<char> = Vec::new();
    push_str(&mut v, "{\"body\":null,\"body_base64\":null,\"headers\":{}");
    push_response_tail(&mut v, request_id, status, message);
    string_of(v.as_slice())
}

} // verus!

verus! {

/// A frame the platform sends over the agent connection.
#[derive(Debug, Clone)]
pub enum RelayFrame {
    Request(HttpRelayRequest),
    WsOpen(TunnelRequest),
    WsSend { tunnel_id: String, text: Option<String>, bytes_base64: Option<String> },
    WsClose { tunnel_id: String },
    /// Any other type, or none.
    Other,
}

/// What happened on the agent connection, or to one of its tunnels.
#[derive(Debug, Clone)]
pub enum RelayInput {
    Frame(RelayFrame),
    /// A text frame that is not JSON; the parser's message.
    Unparsable(String),
    /// A binary, ping or pong frame.
    NonText,
    /// A tunnel's socket is up and can be written to.
    Registered(String),
    /// A tunnel has ended.
    Deregistered(String),
    /// Reading the connection failed with this message.
    StreamFailed(String),
    /// The connection was closed.
    StreamEnded,
}

/// What the caller does next.
#[derive(Debug)]
pub enum RelayAction {
    Ignore,
    /// Make the request as planned and send back its response, or answer
    /// with the failure.
    Forward(Result<HttpRelayPlan, HttpRelayFailure>),
    /// Run a tunnel: connect as planned and feed the tunnel what happens.
    StartTunnel { tunnel: LocalTunnel, plan: TunnelPlan },
    /// Send this text message over the connection.
    Report { text: String },
    SendText { tunnel_id: String, text: String },
    SendBinary { tunnel_id: String, bytes: Vec<u8> },
    /// Send a close frame on the tunnel's socket.
    CloseTunnel { tunnel_id: String },
    /// Wait and connect again, telling the user this.
    Reconnect { notice: String },
    /// Stop relaying with this error.
    Fail { message: String },
}

/// `s` without any occurrence of `x`.
pub open spec fn without(s: Seq<Seq<char>>, x: Seq<char>) -> Seq<Seq<char>>
    decreases s.len(),
{
    if s.len() == 0 {
        s
    } else {
        let r = without(s.drop_last(), x);
        if s.last() == x {
            r
        } else {
            r.push(s.last())
        }
    }
}

pub proof fn lemma_without(s: Seq<Seq<char>>, x: Seq<char>)
    ensures
        forall|y: Seq<char>| #[trigger] without(s, x).contains(y) <==> (s.contains(y) && y != x),
        s.no_duplicates() ==> without(s, x).no_duplicates(),
    decreases s.len(),
{
    if s.len() > 0 {
        let d = s.drop_last();
        lemma_without(d, x);
        assert forall|y: Seq<char>| #[trigger] s.contains(y) <==> (d.contains(y) || y == s.last()) by {
            if s.contains(y) {
                let i = choose|i: int| 0 <= i < s.len() && s[i] == y;
                if i < s.len() - 1 {
                    assert(d[i] == y);
                }
            }
            if d.contains(y) {
                let i = choose|i: int| 0 <= i < d.len() && d[i] == y;
                assert(s[i] == y);
            }
            if y == s.last() {
                assert(s[s.len() - 1] == y);
            }
        }
        let r = without(d, x);
        if s.last() != x {
            assert forall|y: Seq<char>| #[trigger] r.push(s.last()).contains(y) <==> (r.contains(y)
                || y == s.last()) by {
                if r.push(s.last()).contains(y) {
                    let i = choose|i: int| 0 <= i < r.len() + 1 && r.push(s.last())[i] == y;
                    if i < r.len() {
                        assert(r[i] == y);
                    }
                }
                if r.contains(y) {
                    let i = choose|i: int| 0 <= i < r.len() && r[i] == y;
                    assert(r.push(s.last())[i] == y);
                }
                if y == s.last() {
                    assert(r.push(s.last())[r.len() as int] == y);
                }
            }
        }
        if s.no_duplicates() {
            assert(d.no_duplicates()) by {
                assert forall|i: int, j: int| 0 <= i < d.len() && 0 <= j < d.len() && i != j implies d[i]
                    != d[j] by {
                    assert(s[i] == d[i] && s[j] == d[j]);
                }
            }
            if s.last() != x {
                assert(!d.contains(s.last())) by {
                    if d.contains(s.last()) {
                        let i = choose|i: int| 0 <= i < d.len() && d[i] == s.last();
                        assert(s[i] == s[s.len() - 1]);
                    }
                }
                assert(!r.contains(s.last()));
                assert(r.push(s.last()).no_duplicates()) by {
                    let p = r.push(s.last());
                    assert forall|i: int, j: int| 0 <= i < p.len() && 0 <= j < p.len() && i != j implies p[i]
                        != p[j] by {
                        if i < r.len() && j < r.len() {
                            assert(p[i] == r[i] && p[j] == r[j]);
                        } else if i < r.len() {
                            assert(r.contains(p[i]));
                        } else if j < r.len() {
                            assert(r.contains(p[j]));
                        }
                    }
                }
            }
        }
    }
}

/// The state of the agent relay: the runtime's URL, the path under which
/// it serves sessions, and the tunnels that can be written to.
#[derive(Debug)]
pub struct RelayState {
    opcode_base: String,
    fallback_prefix: String,
    tunnels: Vec<String>,
}

/// One step of the relay over the set of open tunnels `tunnels`.
pub open spec fn relay_next(
    tunnels: Seq<Seq<char>>,
    opcode_base: Seq<char>,
    prefix: Seq<char>,
    input: RelayInput,
    next: Seq<Seq<char>>,
    action: RelayAction,
) -> bool {
    match input {
        RelayInput::Frame(f) => match f {
            RelayFrame::Request(req) => next == tunnels && (action matches RelayAction::Forward(r)
                && http_plan_matches(opcode_base, req, r)),
            RelayFrame::WsOpen(req) => next == tunnels && match tunnel_plan_of(
                opcode_base,
                prefix,
                req,
            ) {
                Ok((url, hs, terminal)) => action matches RelayAction::StartTunnel { tunnel, plan }
                    && plan.url@ == url && header_pairs(plan.headers@) == hs && plan.terminal
                    == terminal && tunnel.tunnel_id@ == req.tunnel_id@ && tunnel.terminal
                    == terminal && tunnel.phase == TunnelPhase::Connecting,
                Err(d) => action matches RelayAction::Report { text } && text@ == error_event_json(
                    req.tunnel_id@,
                    d,
                ),
            },
            RelayFrame::WsSend { tunnel_id, text, bytes_base64 } => next == tunnels && if !tunnels.contains(
                tunnel_id@,
            ) {
                action is Ignore
            } else {
                match text {
                    Some(t) => action matches RelayAction::SendText { tunnel_id: id, text: x }
                        && id@ == tunnel_id@ && x@ == t@,
                    None => match bytes_base64 {
                        Some(b) => match base64_standard_decoded(b@) {
                            Ok(bytes) => action matches RelayAction::SendBinary {
                                tunnel_id: id,
                                bytes: y,
                            } && id@ == tunnel_id@ && y@ == bytes,
                            Err(m) => action matches RelayAction::Fail { message } && message@ == m,
                        },
                        None => action is Ignore,
                    },
                }
            },
            RelayFrame::WsClose { tunnel_id } => next == without(tunnels, tunnel_id@) && if tunnels.contains(
                tunnel_id@,
            ) {
                action matches RelayAction::CloseTunnel { tunnel_id: id } && id@ == tunnel_id@
            } else {
                action is Ignore
            },
            RelayFrame::Other => next == tunnels && action is Ignore,
        },
        RelayInput::Unparsable(m) => next == tunnels && (action matches RelayAction::Fail { message }
            && message@ == m@),
        RelayInput::NonText => next == tunnels && action is Ignore,
        RelayInput::Registered(id) => next == (if tunnels.contains(id@) {
            tunnels
        } else {
            tunnels.push(id@)
        }) && action is Ignore,
        RelayInput::Deregistered(id) => next == without(tunnels, id@) && action is Ignore,
        RelayInput::StreamFailed(e) => next == tunnels && (action matches RelayAction::Reconnect {
            notice,
        } && notice@ == "agent relay disconnected: "@ + e@ + "; reconnecting"@),
        RelayInput::StreamEnded => next == tunnels && (action matches RelayAction::Reconnect { notice }
            && notice@ == "agent relay connection closed; reconnecting"@),
    }
}

fn position_of(v: &Vec<String>, id: &str) -> (r: Option<usize>)
    ensures
        match r {
            Some(i) => i < v@.len() && v@[i as int]@ == id@,
            None => !string_views(v@).contains(id@),
        },
{
    let mut i: usize = 0;
    while i < v.len()
        invariant
            i <= v@.len(),
            forall|j: int| 0 <= j < i ==> string_views(v@)[j] != id@,
        decreases v@.len() - i,
    {
        if crate::strs::str_eq(v[i].as_str(), id) {
            return Some(i);
        }
        i = i + 1;
    }
    None
}

fn remove_all(v: &Vec<String>, id: &str) -> (r: Vec<String>)
    ensures
        string_views(r@) == without(string_views(v@), id@),
{
    let ghost s = string_views(v@);
    let mut out: Vec<String> = Vec::new();
    let mut i: usize = 0;
    assert(s.take(0) =~= Seq::<Seq<char>>::empty());
    while i < v.len()
        invariant
            i <= v@.len(),
            s == string_views(v@),
            string_views(out@) == without(s.take(i as int), id@),
        decreases v@.len() - i,
    {
        assert(s.take(i + 1).drop_last() =~= s.take(i as int));
        if !crate::strs::str_eq(v[i].as_str(), id) {
            out.push(v[i].clone());
        }
        assert(string_views(out@) =~= without(s.take(i + 1), id@));
        i = i + 1;
    }
    assert(s.take(v@.len() as int) =~= s);
    out
}

impl RelayState {
    pub closed spec fn open_tunnels(&self) -> Seq<Seq<char>> {
        string_views(self.tunnels@)
    }

    pub closed spec fn opcode_base(&self) -> Seq<char> {
        self.opcode_base@
    }

    pub closed spec fn fallback_prefix(&self) -> Seq<char> {
        self.fallback_prefix@
    }

    /// The relay's invariant: a tunnel is open at most once.
    pub open spec fn wf(&self) -> bool {
        self.open_tunnels().no_duplicates()
    }

    /// A relay with no open tunnel.
    pub fn new(opcode_base: String, fallback_prefix: String) -> (r: Self)
        ensures
            r.wf(),
            r.open_tunnels() == Seq::<Seq<char>>::empty(),
            r.opcode_base() == opcode_base@,
            r.fallback_prefix() == fallback_prefix@,
    {
        let r = RelayState { opcode_base, fallback_prefix, tunnels: Vec::new() };
        assert(r.open_tunnels() =~= Seq::<Seq<char>>::empty());
        r
    }

    /// Whether a tunnel can be written to.
    pub fn is_open(&self, tunnel_id: &str) -> (r: bool)
        ensures
            r == self.open_tunnels().contains(tunnel_id@),
    {
        match position_of(&self.tunnels, tunnel_id) {
            Some(i) => {
                assert(self.open_tunnels()[i as int] == tunnel_id@);
                true
            },
            None => false,
        }
    }

    /// Handles one event of the agent connection.
    pub fn step(&mut self, input: RelayInput) -> (r: RelayAction)
        requires
            old(self).wf(),
        ensures
            final(self).wf(),
            final(self).opcode_base() == old(self).opcode_base(),
            final(self).fallback_prefix() == old(self).fallback_prefix(),
            relay_next(
                old(self).open_tunnels(),
                old(self).opcode_base(),
                old(self).fallback_prefix(),
                input,
                final(self).open_tunnels(),
                r,
            ),
    {
        let ghost t0 = self.open_tunnels();
        proof {
            lemma_without(t0, Seq::empty());
        }
        match input {
            RelayInput::Frame(f) => match f {
                RelayFrame::Request(req) => RelayAction::Forward(
                    plan_http_relay(self.opcode_base.as_str(), req),
                ),
                RelayFrame::WsOpen(req) => {
                    match plan_local_tunnel(
                        self.opcode_base.as_str(),
                        self.fallback_prefix.as_str(),
                        &req,
                    ) {
                        Ok(plan) => {
                            let tunnel = LocalTunnel::new(req.tunnel_id, &plan);
                            RelayAction::StartTunnel { tunnel, plan }
                        },
                        Err(d) => {
                            let text = tunnel_event_json(
                                req.tunnel_id.as_str(),
                                &TunnelEvent::Error(d),
                            );
                            RelayAction::Report { text }
                        },
                    }
                },
                RelayFrame::WsSend { tunnel_id, text, bytes_base64 } => {
                    if !self.is_open(tunnel_id.as_str()) {
                        RelayAction::Ignore
                    } else {
                        match text {
                            Some(t) => RelayAction::SendText { tunnel_id, text: t },
                            None => match bytes_base64 {
                                Some(b) => match base64_decode(b.as_str()) {
                                    Ok(bytes) => RelayAction::SendBinary { tunnel_id, bytes },
                                    Err(message) => RelayAction::Fail { message },
                                },
                                None => RelayAction::Ignore,
                            },
                        }
                    }
                },
                RelayFrame::WsClose { tunnel_id } => {
                    let was_open = self.is_open(tunnel_id.as_str());
                    let rest = remove_all(&self.tunnels, tunnel_id.as_str());
                    self.tunnels = rest;
                    proof {
                        lemma_without(t0, tunnel_id@);
                    }
                    if was_open {
                        RelayAction::CloseTunnel { tunnel_id }
                    } else {
                        RelayAction::Ignore
                    }
                },
                RelayFrame::Other => RelayAction::Ignore,
            },
            RelayInput::Unparsable(message) => RelayAction::Fail { message },
            RelayInput::NonText => RelayAction::Ignore,
            RelayInput::Registered(id) => {
                if !self.is_open(id.as_str()) {
                    let ghost before = self.tunnels@;
                    self.tunnels.push(id);
                    assert(self.open_tunnels() =~= t0.push(id@));
                    assert(self.open_tunnels().no_duplicates()) by {
                        let p = self.open_tunnels();
                        assert forall|i: int, j: int|
                            0 <= i < p.len() && 0 <= j < p.len() && i != j implies p[i] != p[j] by {
                            if i < t0.len() && j < t0.len() {
                                assert(p[i] == t0[i] && p[j] == t0[j]);
                            } else if i < t0.len() {
                                assert(t0.contains(p[i]));
                            } else if j < t0.len() {
                                assert(t0.contains(p[j]));
                            }
                        }
                    }
                }
                RelayAction::Ignore
            },
            RelayInput::Deregistered(id) => {
                let rest = remove_all(&self.tunnels, id.as_str());
                self.tunnels = rest;
                proof {
                    lemma_without(t0, id@);
                }
                RelayAction::Ignore
            },
            RelayInput::StreamFailed(e) => {
                let mut v: Vec<char> = Vec::new();
                push_str(&mut v, "agent relay disconnected: ");
                push_str(&mut v, e.as_str());
                push_str(&mut v, "; reconnecting");
                RelayAction::Reconnect { notice: string_of(v.as_slice()) }
            },
            RelayInput::StreamEnded => RelayAction::Reconnect {
                notice: "agent relay connection closed; reconnecting".to_owned(),
            },
        }
    }
}

} // verus!

verus! {

/// Every relay step keeps each open tunnel listed once.
pub proof fn lemma_relay_keeps_tunnels_distinct(
    tunnels: Seq<Seq<char>>,
    opcode_base: Seq<char>,
    prefix: Seq<char>,
    input: RelayInput,
    next: Seq<Seq<char>>,
    action: RelayAction,
)
    requires
        tunnels.no_duplicates(),
        relay_next(tunnels, opcode_base, prefix, input, next, action),
    ensures
        next.no_duplicates(),
{
    match input {
        RelayInput::Frame(RelayFrame::WsClose { tunnel_id }) => {
            lemma_without(tunnels, tunnel_id@);
        },
        RelayInput::Deregistered(id) => {
            lemma_without(tunnels, id@);
        },
        RelayInput::Registered(id) => {
            if !tunnels.contains(id@) {
                let p = tunnels.push(id@);
                assert forall|i: int, j: int| 0 <= i < p.len() && 0 <= j < p.len() && i != j implies p[i]
                    != p[j] by {
                    if i < tunnels.len() && j < tunnels.len() {
                        assert(p[i] == tunnels[i] && p[j] == tunnels[j]);
                    } else if i < tunnels.len() {
                        assert(tunnels.contains(p[i]));
                    } else if j < tunnels.len() {
                        assert(tunnels.contains(p[j]));
                    }
                }
            }
        },
        _ => {},
    }
}

/// The set of open tunnels changes only when a tunnel registers or ends,
/// or when the platform closes one.
pub proof fn lemma_tunnels_change_only_by_lifecycle(
    tunnels: Seq<Seq<char>>,
    opcode_base: Seq<char>,
    prefix: Seq<char>,
    input: RelayInput,
    next: Seq<Seq<char>>,
    action: RelayAction,
)
    requires
        relay_next(tunnels, opcode_base, prefix, input, next, action),
        next != tunnels,
    ensures
        input is Registered || input is Deregistered || input matches RelayInput::Frame(
            RelayFrame::WsClose { .. },
        ),
{
}

/// Once the platform closes a tunnel, it can no longer be written to.
pub proof fn lemma_closed_tunnel_is_gone(
    tunnels: Seq<Seq<char>>,
    opcode_base: Seq<char>,
    prefix: Seq<char>,
    tunnel_id: String,
    next: Seq<Seq<char>>,
    action: RelayAction,
)
    requires
        relay_next(
            tunnels,
            opcode_base,
            prefix,
            RelayInput::Frame(RelayFrame::WsClose { tunnel_id }),
            next,
            action,
        ),
    ensures
        !next.contains(tunnel_id@),
{
    lemma_without(tunnels, tunnel_id@);
}

/// Data for a tunnel that is not open is dropped, and nothing changes.
pub proof fn lemma_unknown_tunnel_ignored(
    tunnels: Seq<Seq<char>>,
    opcode_base: Seq<char>,
    prefix: Seq<char>,
    tunnel_id: String,
    text: Option<String>,
    bytes_base64: Option<String>,
    next: Seq<Seq<char>>,
    action: RelayAction,
)
    requires
        !tunnels.contains(tunnel_id@),
        relay_next(
            tunnels,
            opcode_base,
            prefix,
            RelayInput::Frame(RelayFrame::WsSend { tunnel_id, text, bytes_base64 }),
            next,
            action,
        ),
    ensures
        action is Ignore,
        next == tunnels,
{
}

/// The relay stops only on a text frame that is not JSON, or on base64
/// data for an open tunnel that does not decode.
pub proof fn lemma_relay_fails_only_on_bad_frames(
    tunnels: Seq<Seq<char>>,
    opcode_base: Seq<char>,
    prefix: Seq<char>,
    input: RelayInput,
    next: Seq<Seq<char>>,
    action: RelayAction,
)
    requires
        relay_next(tunnels, opcode_base, prefix, input, next, action),
        action is Fail,
    ensures
        input is Unparsable || (input matches RelayInput::Frame(
            RelayFrame::WsSend { tunnel_id, text: None, bytes_base64: Some(b) },
        ) && tunnels.contains(tunnel_id@) && base64_standard_decoded(b@) is Err),
{
}

/// A lost or closed connection is always reconnected, with the open
/// tunnels kept.
pub proof fn lemma_lost_connection_reconnects(
    tunnels: Seq<Seq<char>>,
    opcode_base: Seq<char>,
    prefix: Seq<char>,
    input: RelayInput,
    next: Seq<Seq<char>>,
    action: RelayAction,
)
    requires
        relay_next(tunnels, opcode_base, prefix, input, next, action),
        input is StreamFailed || input is StreamEnded,
    ensures
        action is Reconnect,
        next == tunnels,
{
}

} // verus!

verus! {

/// What `url` makes of `base` with its path replaced by `path` and the
/// pairs `(k1, v1)`, `(k2, v2)` appended to its query, form-encoded; or the
/// message of the error parsing `base`.
pub uninterp spec fn url_with_path_and_query(
    base: Seq<char>,
    path: Seq<char>,
    k1: Seq<char>,
    v1: Seq<char>,
    k2: Seq<char>,
    v2: Seq<char>,
) -> Result<Seq<char>, Seq<char>>;

/// `url::Url::parse(base)`, then `set_path(path)` and two
/// `query_pairs_mut().append_pair` calls; the result, written out by the
/// URL's `Display`, is named [`url_with_path_and_query`].
#[verifier::external_body]
fn url_path_query(base: &str, path: &str, k1: &str, v1: &str, k2: &str, v2: &str) -> (r: Result<
    String,
    String,
>)
    ensures
        match r {
            Ok(u) => url_with_path_and_query(base@, path@, k1@, v1@, k2@, v2@) == Ok::<
                Seq<char>,
                Seq<char>,
            >(u@),
            Err(e) => url_with_path_and_query(base@, path@, k1@, v1@, k2@, v2@) == Err::<
                Seq<char>,
                Seq<char>,
            >(e@),
        },
{
    match url::Url::parse(base) {
        Ok(mut u) => {
            u.set_path(path);
            u.query_pairs_mut().append_pair(k1, v1).append_pair(k2, v2);
            Ok(u.to_string())
        },
        Err(e) => Err(e.to_string()),
    }
}

/// The address of the agent connection: the platform's base URL with a
/// WebSocket scheme, the path `/api/agent/connect`, and the token and
/// device id as query parameters.
pub fn relay_connect_url(base_url: &str, token: &str, device_id: &str) -> (r: Result<String, String>)
    ensures
        match r {
            Ok(u) => url_with_path_and_query(
                ws_scheme(base_url@),
                "/api/agent/connect"@,
                "token"@,
                token@,
                "device_id"@,
                device_id@,
            ) == Ok::<Seq<char>, Seq<char>>(u@),
            Err(e) => url_with_path_and_query(
                ws_scheme(base_url@),
                "/api/agent/connect"@,
                "token"@,
                token@,
                "device_id"@,
                device_id@,
            ) == Err::<Seq<char>, Seq<char>>(e@),
        },
{
    let ws = websocket_base(base_url);
    url_path_query(ws.as_str(), "/api/agent/connect", "token", token, "device_id", device_id)
}

} // verus!
