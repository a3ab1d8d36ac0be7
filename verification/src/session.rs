//! AI development sessions: the `d1v session` arguments and the session
//! views.
use crate::strs::{dec, push_str, string_of};
use crate::text::fields::{Field, Fields};
use crate::text::style::Style;
use crate::text::table::TableRow;
use crate::text::text::Text;
use crate::text::{Render, RenderContext, RenderError};
use crate::theme;
use crate::view::{
    field, field_opt, fields_text, heading, heading_ok, listing_ok, opt_str, or_dash, plain_row,
    row_of, string_texts, styled_as_fields, Listing, Section,
};
use vstd::prelude::*;
use vstd::utf8::*;

verus! {

/// `d1v session` subcommands.
#[derive(Debug)]
pub enum SessionCommand {
    /// Start a new AI development session
    Run(RunArgs),
    /// Continue an existing or active session
    Continue(ContinueArgs),
    /// Show the latest active session for a project
    Status(StatusArgs),
    /// Show project chat/session history
    History(HistoryArgs),
    /// Cancel a session by session ID
    Cancel(CancelArgs),
}

#[derive(Debug, Clone)]
pub struct RunArgs {
    pub project_id: String,
    pub prompt: String,
    pub model: Option<String>,
    pub engine: Option<EngineArg>,
    pub auto_deploy: Option<bool>,
}

#[derive(Debug, Clone)]
pub struct ContinueArgs {
    pub project_id: String,
    pub prompt: String,
    pub session_id: Option<String>,
    pub model: Option<String>,
    pub engine: Option<EngineArg>,
    pub auto_deploy: Option<bool>,
}

#[derive(Debug, Clone)]
pub struct StatusArgs {
    pub project_id: String,
}

#[derive(Debug, Clone)]
pub struct HistoryArgs {
    pub project_id: String,
    /// How many entries to show (20 unless given).
    pub limit: u32,
    pub include_payload: bool,
    pub direction: Option<DirectionArg>,
    pub message_type: Vec<MessageTypeArg>,
}

#[derive(Debug, Clone)]
pub struct CancelArgs {
    pub session_id: String,
}

/// Who wrote a history entry.
#[derive(Debug, Clone, Copy, PartialEq, Eq)]
pub enum DirectionArg {
    User,
    Assistant,
    System,
}

/// The kind of a history entry.
#[derive(Debug, Clone, Copy, PartialEq, Eq)]
pub enum MessageTypeArg {
    Prompt,
    GitCommit,
    Result,
    Complete,
    Cancelled,
    Error,
}

/// The coding engine of a session.
#[derive(Debug, Clone, Copy, PartialEq, Eq)]
pub enum EngineArg {
    Claude,
    Codex,
}

/// A session as the platform reports it; times already written as
/// `YYYY-MM-DD HH:MM:SS`.
#[derive(Debug, Clone)]
pub struct RuntimeSession {
    pub session_id: String,
    pub project_id: String,
    pub model: Option<String>,
    pub status: Option<String>,
    pub created_at: Option<String>,
    pub updated_at: Option<String>,
}

/// What starting or continuing a session returns.
#[derive(Debug, Clone)]
pub struct ExecuteSessionResponse {
    pub session_id: String,
    pub session: RuntimeSession,
    pub websocket_url: String,
}

/// A started or continued session: the title with its id, then the
/// project, model, status, creation time and WebSocket.
pub fn session_response_view(title: &str, r: &ExecuteSessionResponse) -> (v: Section)
    ensures
        heading_ok(v.heading, title@, Some(r.session_id@)),
        v.fields.indent == 2,
        styled_as_fields(v.fields.fields@),
        fields_text(v.fields.fields@) == seq![
            ("Project"@, r.session.project_id@),
            ("Model"@, or_dash(opt_str(r.session.model))),
            ("Status"@, or_dash(opt_str(r.session.status))),
            ("Created"@, or_dash(opt_str(r.session.created_at))),
            ("WebSocket"@, r.websocket_url@),
        ],
{
    let mut fs: Vec<Field> = Vec::new();
    fs.push(field("Project", r.session.project_id.as_str()));
    fs.push(field_opt("Model", &r.session.model));
    fs.push(field_opt("Status", &r.session.status));
    fs.push(field_opt("Created", &r.session.created_at));
    fs.push(field("WebSocket", r.websocket_url.as_str()));
    let v = Section { heading: heading(title, Some(r.session_id.clone())), fields: Fields::new(fs).indent(2) };
    assert(fields_text(v.fields.fields@) =~= seq![
        ("Project"@, r.session.project_id@),
        ("Model"@, or_dash(opt_str(r.session.model))),
        ("Status"@, or_dash(opt_str(r.session.status))),
        ("Created"@, or_dash(opt_str(r.session.created_at))),
        ("WebSocket"@, r.websocket_url@),
    ]);
    v
}

/// The active session, or a note that there is none.
pub enum SessionStatusView {
    Active(Section),
    NoSession(Text),
}

impl SessionStatusView {
    pub open spec fn chars(&self, color: bool) -> Seq<char> {
        match self {
            SessionStatusView::Active(s) => s.chars(color),
            SessionStatusView::NoSession(t) => t.chars(color),
        }
    }

    pub fn new(session: &Option<RuntimeSession>) -> (v: Self)
        ensures
            session is None ==> (v matches SessionStatusView::NoSession(t) && crate::view::lines_are(
                t,
                seq![("No active session."@, Some(Style::plain().with_dimmed()))],
            )),
            session matches Some(s) ==> (v matches SessionStatusView::Active(sec) && heading_ok(
                sec.heading,
                "Active session"@,
                Some(s.session_id@),
            ) && sec.fields.indent == 2 && styled_as_fields(sec.fields.fields@) && fields_text(
                sec.fields.fields@,
            ) == seq![
                ("Project"@, s.project_id@),
                ("Model"@, or_dash(opt_str(s.model))),
                ("Status"@, or_dash(opt_str(s.status))),
                ("Created"@, or_dash(opt_str(s.created_at))),
                ("Updated"@, or_dash(opt_str(s.updated_at))),
            ]),
    {
        match session {
            Some(s) => {
                let mut fs: Vec<Field> = Vec::new();
                fs.push(field("Project", s.project_id.as_str()));
                fs.push(field_opt("Model", &s.model));
                fs.push(field_opt("Status", &s.status));
                fs.push(field_opt("Created", &s.created_at));
                fs.push(field_opt("Updated", &s.updated_at));
                let sec = Section {
                    heading: heading("Active session", Some(s.session_id.clone())),
                    fields: Fields::new(fs).indent(2),
                };
                assert(fields_text(sec.fields.fields@) =~= seq![
                    ("Project"@, s.project_id@),
                    ("Model"@, or_dash(opt_str(s.model))),
                    ("Status"@, or_dash(opt_str(s.status))),
                    ("Created"@, or_dash(opt_str(s.created_at))),
                    ("Updated"@, or_dash(opt_str(s.updated_at))),
                ]);
                SessionStatusView::Active(sec)
            },
            None => {
                let b = crate::view::LinesBuilder::new().styled(
                    "No active session.".to_owned(),
                    theme::dim(),
                );
                assert(b.expected@ =~= seq![("No active session."@, Some(Style::plain().with_dimmed()))]);
                SessionStatusView::NoSession(b.text)
            },
        }
    }
}

impl Render for SessionStatusView {
    open spec fn fails(&self) -> bool {
        false
    }

    open spec fn rendered(&self, color: bool) -> Seq<u8> {
        encode_utf8(self.chars(color))
    }

    fn render(&self, ctx: &mut RenderContext) -> (r: Result<(), RenderError>) {
        match self {
            SessionStatusView::Active(s) => s.render(ctx),
            SessionStatusView::NoSession(t) => t.render(ctx),
        }
    }
}

/// An entry of a project's session history; the direction and time are
/// already written out.
#[derive(Debug, Clone)]
pub struct ChatHistory {
    pub id: u64,
    pub direction: String,
    pub message_type: Option<String>,
    pub created_at: String,
    pub message_text: Option<String>,
}

/// The text column: the first 72 characters of the message, or `-` when
/// there are none.
pub open spec fn history_text(t: Option<String>) -> Seq<char> {
    let s = match t {
        Some(x) => x@,
        None => seq![],
    };
    if s.len() == 0 {
        "-"@
    } else if s.len() <= 72 {
        s
    } else {
        s.take(72)
    }
}

fn history_text_exec(t: &Option<String>) -> (r: String)
    ensures
        r@ == history_text(*t),
{
    match t {
        Some(x) => {
            let c = crate::strs::chars_of(x.as_str());
            if c.len() == 0 {
                "-".to_owned()
            } else if c.len() <= 72 {
                x.clone()
            } else {
                let p = crate::strs::slice_vec(c.as_slice(), 0, 72);
                string_of(p.as_slice())
            }
        },
        None => "-".to_owned(),
    }
}

pub open spec fn history_cells(e: ChatHistory) -> Seq<Seq<char>> {
    seq![dec(e.id as nat), e.direction@, or_dash(opt_str(e.message_type)), e.created_at@, history_text(
        e.message_text,
    )]
}

/// The history as a table: id, direction, type, time and the start of the
/// message.
pub fn session_history_view(entries: &Vec<ChatHistory>) -> (r: Listing)
    ensures
        listing_ok(
            r,
            "No history found."@,
            seq!["id"@, "direction"@, "type"@, "created_at"@, "text"@],
            Seq::new(entries@.len(), |i: int| history_cells(entries@[i])),
        ),
{
    let ghost cells = Seq::new(entries@.len(), |i: int| history_cells(entries@[i]));
    let mut rows: Vec<TableRow> = Vec::new();
    let mut i: usize = 0;
    while i < entries.len()
        invariant
            i <= entries@.len(),
            cells == Seq::new(entries@.len(), |i: int| history_cells(entries@[i])),
            rows@.len() == i,
            forall|j: int| 0 <= j < i ==> plain_row(#[trigger] rows@[j], cells[j]),
        decreases entries@.len() - i,
    {
        let e = &entries[i];
        let mut c: Vec<String> = Vec::new();
        c.push(crate::strs::dec_string(e.id));
        c.push(e.direction.clone());
        c.push(
            match &e.message_type {
                Some(t) => t.clone(),
                None => "-".to_owned(),
            },
        );
        c.push(e.created_at.clone());
        c.push(history_text_exec(&e.message_text));
        assert(string_texts(c@) =~= cells[i as int]);
        rows.push(row_of(c));
        i = i + 1;
    }
    let mut h: Vec<String> = Vec::new();
    h.push("id".to_owned());
    h.push("direction".to_owned());
    h.push("type".to_owned());
    h.push("created_at".to_owned());
    h.push("text".to_owned());
    let ghost header = seq!["id"@, "direction"@, "type"@, "created_at"@, "text"@];
    assert(string_texts(h@) =~= header);
    crate::view::listing("No history found.", row_of(h), rows, Ghost(header), Ghost(cells))
}

/// The notice after a session command: `WHAT ID`.
pub fn session_notice(what: &str, session_id: &str) -> (r: String)
    ensures
        r@ == what@ + " "@ + session_id@,
{
    let mut v: Vec<char> = Vec::new();
    push_str(&mut v, what);
    push_str(&mut v, " ");
    push_str(&mut v, session_id);
    string_of(v.as_slice())
}

} // verus!
