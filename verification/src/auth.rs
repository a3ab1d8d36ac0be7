//! What `d1v auth status` reports.
use crate::output::{duration_text, format_duration};
use crate::strs::{chars_of, push_str, string_of};
use base64::Engine;
use crate::text::fields::{Field, Fields};
use crate::text::line::Line;
use crate::text::span::Span;
use crate::text::style::{AnsiColor, Style};
use crate::text::text::Text;
use crate::text::{Render, RenderContext, RenderError};
use crate::theme;
use vstd::prelude::*;
use vstd::utf8::*;

verus! {

/// The symbol of a success.
pub const SUCCESS: &'static str = "✓";

/// The symbol of a failure.
pub const ERROR: &'static str = "✗";

/// The symbol of an informational message.
pub const INFO: &'static str = "→";

/// The authentication state.
#[derive(Debug, Clone, PartialEq, Eq)]
pub enum AuthStatus {
    NotLoggedIn,
    LoggedIn { source: String, subject: Option<String>, expires_in: Option<i64> },
    Expired { source: String, subject: Option<String> },
}

pub open spec fn opt_string_view(o: Option<String>) -> Option<Seq<char>> {
    match o {
        Some(s) => Some(s@),
        None => None,
    }
}

impl AuthStatus {
    /// The token's source, when logged in or expired.
    pub open spec fn source_spec(&self) -> Option<Seq<char>> {
        match self {
            AuthStatus::NotLoggedIn => None,
            AuthStatus::LoggedIn { source, .. } => Some(source@),
            AuthStatus::Expired { source, .. } => Some(source@),
        }
    }

    pub open spec fn subject_spec(&self) -> Option<Seq<char>> {
        match self {
            AuthStatus::NotLoggedIn => None,
            AuthStatus::LoggedIn { subject, .. } => opt_string_view(*subject),
            AuthStatus::Expired { subject, .. } => opt_string_view(*subject),
        }
    }

    pub open spec fn expires_in_spec(&self) -> Option<i64> {
        match self {
            AuthStatus::LoggedIn { expires_in, .. } => *expires_in,
            _ => None,
        }
    }

    pub open spec fn title_spec(&self) -> Seq<char> {
        match self {
            AuthStatus::NotLoggedIn => "Not logged in"@,
            AuthStatus::Expired { .. } => "Token expired"@,
            AuthStatus::LoggedIn { .. } => "Logged in"@,
        }
    }

    pub open spec fn style_spec(&self) -> Style {
        match self {
            AuthStatus::LoggedIn { .. } => Style::plain().with_fg(AnsiColor::Green),
            _ => Style::plain().with_fg(AnsiColor::Red),
        }
    }
}

/// The status as the terminal shows it: a headline and the user and
/// expiry fields.
pub struct AuthStatusView {
    pub status: AuthStatus,
    pub headline: Line,
    pub fields: Fields,
}

impl AuthStatusView {
    pub fn symbol(&self) -> (r: &'static str)
        ensures
            r@ == (if self.status is LoggedIn {
                "✓"@
            } else {
                "✗"@
            }),
    {
        match &self.status {
            AuthStatus::LoggedIn { .. } => SUCCESS,
            _ => ERROR,
        }
    }

    pub fn title(&self) -> (r: String)
        ensures
            r@ == self.status.title_spec(),
    {
        match &self.status {
            AuthStatus::NotLoggedIn => "Not logged in".to_owned(),
            AuthStatus::Expired { .. } => "Token expired".to_owned(),
            AuthStatus::LoggedIn { .. } => "Logged in".to_owned(),
        }
    }

    pub fn source(&self) -> (r: Option<&str>)
        ensures
            match r {
                Some(s) => self.status.source_spec() == Some(s@),
                None => self.status.source_spec() is None,
            },
    {
        match &self.status {
            AuthStatus::NotLoggedIn => None,
            AuthStatus::LoggedIn { source, .. } => Some(source.as_str()),
            AuthStatus::Expired { source, .. } => Some(source.as_str()),
        }
    }

    pub fn subject(&self) -> (r: Option<&str>)
        ensures
            match r {
                Some(s) => self.status.subject_spec() == Some(s@),
                None => self.status.subject_spec() is None,
            },
    {
        match &self.status {
            AuthStatus::NotLoggedIn => None,
            AuthStatus::LoggedIn { subject, .. } => match subject {
                Some(s) => Some(s.as_str()),
                None => None,
            },
            AuthStatus::Expired { subject, .. } => match subject {
                Some(s) => Some(s.as_str()),
                None => None,
            },
        }
    }

    pub fn expires_in(&self) -> (r: Option<i64>)
        ensures
            r == self.status.expires_in_spec(),
    {
        match &self.status {
            AuthStatus::LoggedIn { expires_in, .. } => *expires_in,
            _ => None,
        }
    }

    /// Builds the view: the headline is the symbol and title in the status
    /// style, then the source in parentheses, dimmed; the fields are the
    /// user and the time left, indented by two.
    pub fn new(status: AuthStatus) -> (r: Self)
        ensures
            r.status == status,
            ({
                let st = status.style_spec();
                let sp = r.headline.spans@;
                &&& sp.len() == (if status.source_spec() is Some { 5int } else { 3int })
                &&& sp[0].content@ == (if status is LoggedIn { "✓"@ } else { "✗"@ })
                &&& sp[0].style == Some(st)
                &&& sp[1].content@ == " "@ && sp[1].style is None
                &&& sp[2].content@ == status.title_spec() && sp[2].style == Some(st)
                &&& status.source_spec() matches Some(src) ==> sp[3].content@ == " "@
                    && sp[3].style is None && sp[4].content@ == "("@ + src + ")"@ && sp[4].style
                    == Some(Style::plain().with_dimmed())
            }),
            r.fields.indent == 2,
            r.fields.gap == 2,
            ({
                let fs = r.fields.fields@;
                let k = if status.subject_spec() is Some { 1int } else { 0int };
                &&& fs.len() == k + (if status.expires_in_spec() is Some { 1int } else { 0int })
                &&& status.subject_spec() matches Some(s) ==> fs[0].label.content@ == "user"@
                    && fs[0].value.content@ == s && fs[0].label.style == Some(
                    Style::plain().with_dimmed(),
                ) && fs[0].value.style == Some(Style::plain())
                &&& status.expires_in_spec() matches Some(secs) ==> fs[k].label.content@
                    == "expires in"@ && fs[k].value.content@ == duration_text(secs as int)
                    && fs[k].label.style == Some(Style::plain().with_dimmed())
                    && fs[k].value.style == Some(Style::plain())
            }),
    {
        let style = match &status {
            AuthStatus::LoggedIn { .. } => theme::success(),
            _ => theme::error(),
        };
        let sym: &str = match &status {
            AuthStatus::LoggedIn { .. } => SUCCESS,
            _ => ERROR,
        };
        let title = match &status {
            AuthStatus::NotLoggedIn => "Not logged in".to_owned(),
            AuthStatus::Expired { .. } => "Token expired".to_owned(),
            AuthStatus::LoggedIn { .. } => "Logged in".to_owned(),
        };
        let mut headline = Line::styled(sym.to_owned(), style).push_plain(" ".to_owned()).push_styled(
            title,
            style,
        );
        let source: Option<&String> = match &status {
            AuthStatus::NotLoggedIn => None,
            AuthStatus::LoggedIn { source, .. } => Some(source),
            AuthStatus::Expired { source, .. } => Some(source),
        };
        match source {
            Some(src) => {
                let mut v: Vec<char> = Vec::new();
                push_str(&mut v, "(");
                push_str(&mut v, src.as_str());
                push_str(&mut v, ")");
                headline = headline.push_plain(" ".to_owned()).push_styled(
                    string_of(v.as_slice()),
                    theme::dim(),
                );
            },
            None => {},
        }
        let subject: Option<&String> = match &status {
            AuthStatus::NotLoggedIn => None,
            AuthStatus::LoggedIn { subject, .. } => match subject {
                Some(s) => Some(s),
                None => None,
            },
            AuthStatus::Expired { subject, .. } => match subject {
                Some(s) => Some(s),
                None => None,
            },
        };
        let expires: Option<i64> = match &status {
            AuthStatus::LoggedIn { expires_in, .. } => *expires_in,
            _ => None,
        };
        let mut fields: Vec<Field> = Vec::new();
        match subject {
            Some(s) => {
                fields.push(
                    Field::new(
                        Span::styled("user".to_owned(), theme::label()),
                        Span::styled(s.clone(), theme::value()),
                    ),
                );
            },
            None => {},
        }
        match expires {
            Some(secs) => {
                fields.push(
                    Field::new(
                        Span::styled("expires in".to_owned(), theme::label()),
                        Span::styled(format_duration(secs), theme::value()),
                    ),
                );
            },
            None => {},
        }
        AuthStatusView { status, headline, fields: Fields::new(fields).indent(2) }
    }

    pub open spec fn chars(&self, color: bool) -> Seq<char> {
        self.headline.chars(color) + seq!['\n'] + self.fields.chars(color)
    }
}

impl Render for AuthStatusView {
    open spec fn fails(&self) -> bool {
        false
    }

    open spec fn rendered(&self, color: bool) -> Seq<u8> {
        encode_utf8(self.chars(color))
    }

    fn render(&self, ctx: &mut RenderContext) -> (r: Result<(), RenderError>) {
        let mut c = self.headline.to_chars(ctx.color);
        c.push('\n');
        let f = self.fields.to_chars(ctx.color);
        crate::strs::push_all(&mut c, f.as_slice());
        assert(c@ =~= self.chars(ctx.color));
        ctx.write_chars(c.as_slice());
        Ok(())
    }
}

} // verus!

verus! {

fn push_json_str(v: &mut Vec<char>, s: &str)
    ensures
        final(v)@ == old(v)@ + crate::relay::json_string_literal(s@),
{
    let q = crate::relay::json_string(s);
    push_str(v, q.as_str());
}

/// The optional `subject` member: present only when known.
pub open spec fn subject_member(subject: Option<String>) -> Seq<char> {
    match subject {
        Some(s) => ",\n  \"subject\": "@ + crate::relay::json_string_literal(s@),
        None => Seq::empty(),
    }
}

/// The JSON of a status, as `serde_json` pretty-prints it: the state under
/// `status` in snake case, then the source, the subject and the seconds
/// left, each left out when unknown.
pub open spec fn auth_status_json(s: AuthStatus) -> Seq<char> {
    match s {
        AuthStatus::NotLoggedIn => "{\n  \"status\": \"not_logged_in\"\n}"@,
        AuthStatus::LoggedIn { source, subject, expires_in } => "{\n  \"status\": \"logged_in\",\n  \"source\": "@
            + crate::relay::json_string_literal(source@) + subject_member(subject) + match expires_in {
            Some(e) => ",\n  \"expires_in\": "@ + crate::strs::int_dec(e as int),
            None => Seq::empty(),
        } + "\n}"@,
        AuthStatus::Expired { source, subject } => "{\n  \"status\": \"expired\",\n  \"source\": "@
            + crate::relay::json_string_literal(source@) + subject_member(subject) + "\n}"@,
    }
}

fn push_subject(v: &mut Vec<char>, subject: &Option<String>)
    ensures
        final(v)@ == old(v)@ + subject_member(*subject),
{
    match subject {
        Some(s) => {
            push_str(v, ",\n  \"subject\": ");
            push_json_str(v, s.as_str());
        },
        None => {
            assert(old(v)@ + Seq::<char>::empty() =~= old(v)@);
        },
    }
}

impl AuthStatus {
    /// The status as pretty-printed JSON.
    pub fn to_json(&self) -> (r: String)
        ensures
            r@ == auth_status_json(*self),
    {
        let mut v: Vec<char> = Vec::new();
        match self {
            AuthStatus::NotLoggedIn => push_str(&mut v, "{\n  \"status\": \"not_logged_in\"\n}"),
            AuthStatus::LoggedIn { source, subject, expires_in } => {
                push_str(&mut v, "{\n  \"status\": \"logged_in\",\n  \"source\": ");
                push_json_str(&mut v, source.as_str());
                push_subject(&mut v, subject);
                let ghost before = v@;
                match expires_in {
                    Some(e) => {
                        push_str(&mut v, ",\n  \"expires_in\": ");
                        crate::strs::push_int_dec(&mut v, *e);
                    },
                    None => {
                        assert(before + Seq::<char>::empty() =~= before);
                    },
                }
                push_str(&mut v, "\n}");
            },
            AuthStatus::Expired { source, subject } => {
                push_str(&mut v, "{\n  \"status\": \"expired\",\n  \"source\": ");
                push_json_str(&mut v, source.as_str());
                push_subject(&mut v, subject);
                push_str(&mut v, "\n}");
            },
        }
        assert(v@ =~= auth_status_json(*self));
        string_of(v.as_slice())
    }
}

} // verus!

verus! {

/// How many times browser login checks on its session (every two
/// seconds, so ten minutes).
pub const BROWSER_LOGIN_POLLS: u32 = 300;

/// What one check of a browser login session leads to.
#[derive(Debug, Clone, PartialEq, Eq)]
pub enum BrowserPoll {
    /// Still pending: wait and check again.
    Wait,
    /// Approved: take the key from the session and store it.
    Consume,
    /// The login failed with this message.
    Failed(String),
}

/// The session's status decides: `pending` waits (until the checks run
/// out, which times out), `approved` takes the key, `expired` times out,
/// `consumed` was used already, anything else is invalid.
pub open spec fn browser_poll_spec(status: Seq<char>, polls_left: u32) -> Result<bool, Seq<char>> {
    if status == "pending"@ {
        if polls_left > 0 {
            Ok(false)
        } else {
            Err("browser login timed out"@)
        }
    } else if status == "approved"@ {
        Ok(true)
    } else if status == "expired"@ {
        Err("browser login timed out"@)
    } else if status == "consumed"@ {
        Err("browser login session was already consumed"@)
    } else {
        Err("invalid browser login status"@)
    }
}

/// A browser login in progress: how many checks were made.
#[derive(Debug, Clone, Copy)]
pub struct BrowserLogin {
    pub polls: u32,
}

impl BrowserLogin {
    pub fn new() -> (r: Self)
        ensures
            r.polls == 0,
    {
        BrowserLogin { polls: 0 }
    }

    /// Takes the status one check reported.
    pub fn observe(&mut self, status: &str) -> (r: BrowserPoll)
        requires
            old(self).polls < BROWSER_LOGIN_POLLS,
        ensures
            final(self).polls == old(self).polls + 1,
            match browser_poll_spec(status@, (BROWSER_LOGIN_POLLS - old(self).polls - 1) as u32) {
                Ok(false) => r == BrowserPoll::Wait,
                Ok(true) => r == BrowserPoll::Consume,
                Err(m) => r matches BrowserPoll::Failed(s) && s@ == m,
            },
    {
        self.polls = self.polls + 1;
        if crate::strs::str_eq(status, "pending") {
            if self.polls < BROWSER_LOGIN_POLLS {
                BrowserPoll::Wait
            } else {
                BrowserPoll::Failed("browser login timed out".to_owned())
            }
        } else if crate::strs::str_eq(status, "approved") {
            BrowserPoll::Consume
        } else if crate::strs::str_eq(status, "expired") {
            BrowserPoll::Failed("browser login timed out".to_owned())
        } else if crate::strs::str_eq(status, "consumed") {
            BrowserPoll::Failed("browser login session was already consumed".to_owned())
        } else {
            BrowserPoll::Failed("invalid browser login status".to_owned())
        }
    }
}

/// Browser login never waits past its checks: after the last one, a
/// session still pending has timed out.
pub proof fn lemma_browser_login_ends(polls: u32, status: Seq<char>)
    requires
        polls + 1 == BROWSER_LOGIN_POLLS,
    ensures
        browser_poll_spec(status, (BROWSER_LOGIN_POLLS - polls - 1) as u32) != Ok::<bool, Seq<char>>(false),
{
}

/// What the user is told once the browser login session exists: the
/// address to open when no browser could be opened (as a plain message),
/// else to finish there (as information).
pub open spec fn browser_prompt_spec(opened: bool, url: Seq<char>) -> (bool, Seq<char>) {
    if opened {
        (true, "Your browser has opened. Complete login there, then return here."@)
    } else {
        (false, "Open this URL in your browser:\n"@ + url)
    }
}

pub fn browser_prompt(opened: bool, url: &str) -> (r: (bool, String))
    ensures
        r.0 == browser_prompt_spec(opened, url@).0,
        r.1@ == browser_prompt_spec(opened, url@).1,
{
    if opened {
        (true, "Your browser has opened. Complete login there, then return here.".to_owned())
    } else {
        let mut v: Vec<char> = Vec::new();
        push_str(&mut v, "Open this URL in your browser:\n");
        push_str(&mut v, url);
        (false, string_of(v.as_slice()))
    }
}

/// The first step of making sure a usable credential is stored.
#[derive(Debug, Clone, Copy, PartialEq, Eq)]
pub enum CredentialCheck {
    /// A token that has not expired: ask the API whether it is accepted.
    Verify,
    /// Nothing to verify: log in through the browser (on a terminal).
    BrowserLogin,
    /// The stored token expired and nobody can be asked.
    Expired,
    /// No token and nobody can be asked.
    NotLoggedIn,
}

/// A valid-looking token is verified; otherwise a terminal opens browser
/// login, and elsewhere an expired token or a missing one fails.
pub open spec fn credential_check_spec(has_token: bool, expired: bool, interactive: bool) -> CredentialCheck {
    if has_token && !expired {
        CredentialCheck::Verify
    } else if interactive {
        CredentialCheck::BrowserLogin
    } else if has_token {
        CredentialCheck::Expired
    } else {
        CredentialCheck::NotLoggedIn
    }
}

pub fn credential_check(has_token: bool, expired: bool, interactive: bool) -> (r: CredentialCheck)
    ensures
        r == credential_check_spec(has_token, expired, interactive),
{
    if has_token && !expired {
        CredentialCheck::Verify
    } else if interactive {
        CredentialCheck::BrowserLogin
    } else if has_token {
        CredentialCheck::Expired
    } else {
        CredentialCheck::NotLoggedIn
    }
}

/// How a request to the API failed, as far as telling a rejected
/// credential apart goes.
#[derive(Debug, Clone, PartialEq, Eq)]
pub enum RequestFailure {
    /// The API answered with an error: whether its code is
    /// `Unauthorized` or `Forbidden`, and its message.
    Api { denied: bool, message: String },
    /// The server answered with this HTTP status.
    HttpStatus(u16),
    /// Anything else (network, decoding).
    Other,
}

/// A credential is rejected when the API denies it, says the API key is
/// invalid (in any case), or the server answers 401 or 403.
pub open spec fn is_auth_failure_spec(f: RequestFailure) -> bool {
    match f {
        RequestFailure::Api { denied, message } => denied || crate::strs::contains_seq(
            crate::strs::lower_seq(message@),
            "invalid api key"@,
        ),
        RequestFailure::HttpStatus(s) => s == 401 || s == 403,
        RequestFailure::Other => false,
    }
}

pub fn is_auth_failure(f: &RequestFailure) -> (r: bool)
    ensures
        r == is_auth_failure_spec(*f),
{
    match f {
        RequestFailure::Api { denied, message } => {
            *denied || crate::strs::contains(
                crate::strs::to_lower(chars_of(message.as_str()).as_slice()).as_slice(),
                chars_of("invalid api key").as_slice(),
            )
        },
        RequestFailure::HttpStatus(s) => *s == 401 || *s == 403,
        RequestFailure::Other => false,
    }
}

/// After a failed check of a stored token: a rejected credential goes to
/// browser login on a terminal, and elsewhere fails as invalid; any other
/// failure is passed on.
#[derive(Debug, Clone, Copy, PartialEq, Eq)]
pub enum AfterRejection {
    BrowserLogin,
    Invalid,
    PassOn,
}

pub open spec fn after_rejection_spec(f: RequestFailure, interactive: bool) -> AfterRejection {
    if !is_auth_failure_spec(f) {
        AfterRejection::PassOn
    } else if interactive {
        AfterRejection::BrowserLogin
    } else {
        AfterRejection::Invalid
    }
}

pub fn after_rejection(f: &RequestFailure, interactive: bool) -> (r: AfterRejection)
    ensures
        r == after_rejection_spec(*f, interactive),
{
    if !is_auth_failure(f) {
        AfterRejection::PassOn
    } else if interactive {
        AfterRejection::BrowserLogin
    } else {
        AfterRejection::Invalid
    }
}

/// A stored device id is kept when, trimmed, it is 16 to 128 bytes long.
pub open spec fn stored_device_id_spec(content: Seq<char>) -> Option<Seq<char>> {
    let t = crate::strs::trim_ws(content);
    let n = encode_utf8(t).len();
    if 16 <= n && n <= 128 {
        Some(t)
    } else {
        None
    }
}

pub fn stored_device_id(content: &str) -> (r: Option<String>)
    ensures
        match (r, stored_device_id_spec(content@)) {
            (Some(a), Some(b)) => a@ == b,
            (None, None) => true,
            _ => false,
        },
{
    let t = crate::strs::trim(chars_of(content).as_slice());
    let s = string_of(t.as_slice());
    let n = s.as_str().as_bytes().len();
    if 16 <= n && n <= 128 {
        Some(s)
    } else {
        None
    }
}

/// The URL-safe base64 text, without padding, of some bytes.
pub uninterp spec fn base64_url_no_pad(bytes: Seq<u8>) -> Seq<char>;

/// `base64::engine::general_purpose::URL_SAFE_NO_PAD.encode`; the result
/// is named [`base64_url_no_pad`]. The engine panics only when the output
/// length overflows `usize`, which the bound rules out.
#[verifier::external_body]
fn base64_url_encode(bytes: &[u8]) -> (r: String)
    requires
        bytes@.len() <= usize::MAX / 2,
    ensures
        r@ == base64_url_no_pad(bytes@),
{
    base64::engine::general_purpose::URL_SAFE_NO_PAD.encode(bytes)
}

/// `getrandom::fill`: overwrites the buffer with random bytes from the
/// system, or reports why it could not. Nothing is stated of the bytes;
/// the buffer keeps its length.
#[verifier::external_body]
fn fill_random(buf: &mut Vec<u8>) -> (r: Result<(), String>)
    ensures
        final(buf)@.len() == old(buf)@.len(),
{
    getrandom::fill(buf.as_mut_slice()).map_err(|e| e.to_string())
}

/// A new device id: the URL-safe base64 text of 32 random bytes.
pub fn new_device_id() -> (r: Result<String, String>)
    ensures
        r matches Ok(id) ==> exists|b: Seq<u8>| b.len() == 32 && id@ == base64_url_no_pad(b),
        r matches Err(m) ==> exists|e: Seq<char>| m@ == "failed to generate device ID: "@ + e,
{
    let mut bytes: Vec<u8> = Vec::new();
    let mut i: usize = 0;
    while i < 32
        invariant
            i <= 32,
            bytes@.len() == i,
        decreases 32 - i,
    {
        bytes.push(0u8);
        i = i + 1;
    }
    match fill_random(&mut bytes) {
        Ok(()) => {
            let id = base64_url_encode(bytes.as_slice());
            assert(bytes@.len() == 32 && id@ == base64_url_no_pad(bytes@));
            Ok(id)
        },
        Err(e) => {
            let mut v: Vec<char> = Vec::new();
            push_str(&mut v, "failed to generate device ID: ");
            push_str(&mut v, e.as_str());
            Err(string_of(v.as_slice()))
        },
    }
}

/// The device id file holds the id and a newline.
pub fn device_id_file_text(id: &str) -> (r: String)
    ensures
        r@ == id@ + "\n"@,
{
    let mut v = chars_of(id);
    push_str(&mut v, "\n");
    string_of(v.as_slice())
}

/// A token or API key typed at a prompt must not be empty; one piped in
/// is the first line, trimmed.
pub fn piped_secret(line: &str) -> (r: String)
    ensures
        r@ == crate::strs::trim_ws(line@),
{
    string_of(crate::strs::trim(chars_of(line).as_slice()).as_slice())
}

} // verus!
