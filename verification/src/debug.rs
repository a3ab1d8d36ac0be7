//! `d1v debug`: what the CLI knows of itself and of its token. The labels
//! and token notes come in the user's language from the caller.
use crate::strs::{push_str, string_of};
use crate::text::fields::{Field, Fields};
use crate::text::line::Line;
use crate::text::span::Span;
use crate::text::style::{AnsiColor, Style};
use crate::theme;
use crate::view::{field_text, fields_text, opt_str};
use vstd::prelude::*;

verus! {

/// When the token expires, as far as its claims tell.
#[derive(Debug, Clone, Copy, PartialEq, Eq)]
pub enum TokenExpiry {
    Unknown,
    Expired,
    ExpiresIn { seconds: i64 },
}

impl TokenExpiry {
    /// The time left when the claims give one, else expired when they say
    /// so, else unknown.
    pub fn from_claims(expires_in: Option<i64>, is_expired: bool) -> (r: Self)
        ensures
            r == (match expires_in {
                Some(s) => TokenExpiry::ExpiresIn { seconds: s },
                None => if is_expired {
                    TokenExpiry::Expired
                } else {
                    TokenExpiry::Unknown
                },
            }),
    {
        match expires_in {
            Some(s) => TokenExpiry::ExpiresIn { seconds: s },
            None => if is_expired {
                TokenExpiry::Expired
            } else {
                TokenExpiry::Unknown
            },
        }
    }
}

/// The token the CLI would use.
#[derive(Debug, Clone, PartialEq, Eq)]
pub enum TokenInfo {
    Missing,
    Found { source: String, subject: Option<String>, expiry: TokenExpiry },
}

/// A subject is shown only when it is not empty.
pub fn shown_subject(subject: Option<String>) -> (r: Option<String>)
    ensures
        opt_str(r) == match subject {
            Some(s) => if s@.len() > 0 {
                Some(s@)
            } else {
                None
            },
            None => None,
        },
{
    match subject {
        Some(s) => if s.unicode_len() > 0 {
            Some(s)
        } else {
            None
        },
        None => None,
    }
}

/// The localized notes of the token line: that it was found (naming its
/// source), that it expired, and how long it has left.
#[derive(Debug, Clone)]
pub struct TokenNotes {
    pub found: String,
    pub expired: String,
    pub expires_in: String,
}

pub open spec fn parenthesized(s: Seq<char>) -> Seq<char> {
    "("@ + s + ")"@
}

fn in_parens(s: &str) -> (r: String)
    ensures
        r@ == parenthesized(s@),
{
    let mut v: Vec<char> = Vec::new();
    push_str(&mut v, "(");
    push_str(&mut v, s);
    push_str(&mut v, ")");
    string_of(v.as_slice())
}

/// The spans of the token line as texts and styles: a red cross when
/// there is no token; else a green check, the found note, the subject, and
/// the expiry note, each after a plain space and in parentheses where they
/// are notes.
pub open spec fn token_spans(info: TokenInfo, notes: TokenNotes) -> Seq<(Seq<char>, Option<Style>)> {
    match info {
        TokenInfo::Missing => seq![("✗"@, Some(Style::plain().with_fg(AnsiColor::Red)))],
        TokenInfo::Found { subject, expiry, .. } => seq![
            ("✓"@, Some(Style::plain().with_fg(AnsiColor::Green))),
            (" "@, None),
            (parenthesized(notes.found@), Some(Style::plain())),
        ] + match subject {
            Some(s) => seq![(" "@, None), (s@, Some(Style::plain()))],
            None => seq![],
        } + match expiry {
            TokenExpiry::Unknown => seq![],
            TokenExpiry::Expired => seq![(" "@, None), (parenthesized(notes.expired@), Some(Style::plain()))],
            TokenExpiry::ExpiresIn { .. } => seq![(" "@, None), (parenthesized(notes.expires_in@), Some(
                Style::plain(),
            ))],
        },
    }
}

pub open spec fn line_spans(l: Line) -> Seq<(Seq<char>, Option<Style>)> {
    Seq::new(l.spans@.len(), |i: int| (l.spans@[i].content@, l.spans@[i].style))
}

pub fn token_line(info: &TokenInfo, notes: &TokenNotes) -> (r: Line)
    ensures
        line_spans(r) == token_spans(*info, *notes),
{
    proof {
        reveal_strlit(" ");
    }
    match info {
        TokenInfo::Missing => {
            let l = Line::styled(crate::auth::ERROR.to_owned(), theme::error());
            assert(line_spans(l) =~= token_spans(*info, *notes));
            l
        },
        TokenInfo::Found { subject, expiry, .. } => {
            let mut l = Line::styled(crate::auth::SUCCESS.to_owned(), theme::success()).push_plain(
                " ".to_owned(),
            ).push_styled(in_parens(notes.found.as_str()), theme::value());
            let ghost head = line_spans(l);
            match subject {
                Some(s) => {
                    l = l.push_plain(" ".to_owned()).push_styled(s.clone(), theme::value());
                },
                None => {},
            }
            let ghost mid = line_spans(l);
            match expiry {
                TokenExpiry::Unknown => {},
                TokenExpiry::Expired => {
                    l = l.push_plain(" ".to_owned()).push_styled(
                        in_parens(notes.expired.as_str()),
                        theme::value(),
                    );
                },
                TokenExpiry::ExpiresIn { .. } => {
                    l = l.push_plain(" ".to_owned()).push_styled(
                        in_parens(notes.expires_in.as_str()),
                        theme::value(),
                    );
                },
            }
            assert(line_spans(l) =~= token_spans(*info, *notes));
            l
        },
    }
}

/// What `d1v debug` shows, each value already written out.
#[derive(Debug, Clone)]
pub struct DebugInfo {
    pub version: String,
    pub user_agent: String,
    pub locale: String,
    pub features: String,
    pub config: String,
    pub log_dir: String,
    pub base_url: String,
    pub token: TokenInfo,
}

/// The localized labels of the debug view, in its order.
#[derive(Debug, Clone)]
pub struct DebugLabels {
    pub version: String,
    pub user_agent: String,
    pub locale: String,
    pub features: String,
    pub config: String,
    pub log_dir: String,
    pub base_url: String,
    pub token: String,
}

/// The debug view: each label, dimmed, with its plain value, and the token
/// line last.
fn debug_info_view(info: &DebugInfo, labels: &DebugLabels, token: Line) -> (r: (Fields, Line))
    ensures
        r.0.indent == 0,
        r.0.gap == 2,
        r.0.fields@.len() == 7,
        fields_text(r.0.fields@) == seq![
            (labels.version@, info.version@),
            (labels.user_agent@, info.user_agent@),
            (labels.locale@, info.locale@),
            (labels.features@, info.features@),
            (labels.config@, info.config@),
            (labels.log_dir@, info.log_dir@),
            (labels.base_url@, info.base_url@),
        ],
        crate::view::styled_as_fields(r.0.fields@),
        r.1 == token,
{
    let mut fs: Vec<Field> = Vec::new();
    fs.push(crate::view::field(labels.version.as_str(), info.version.as_str()));
    fs.push(crate::view::field(labels.user_agent.as_str(), info.user_agent.as_str()));
    fs.push(crate::view::field(labels.locale.as_str(), info.locale.as_str()));
    fs.push(crate::view::field(labels.features.as_str(), info.features.as_str()));
    fs.push(crate::view::field(labels.config.as_str(), info.config.as_str()));
    fs.push(crate::view::field(labels.log_dir.as_str(), info.log_dir.as_str()));
    fs.push(crate::view::field(labels.base_url.as_str(), info.base_url.as_str()));
    let f = Fields::new(fs);
    assert(fields_text(f.fields@) =~= seq![
        (labels.version@, info.version@),
        (labels.user_agent@, info.user_agent@),
        (labels.locale@, info.locale@),
        (labels.features@, info.features@),
        (labels.config@, info.config@),
        (labels.log_dir@, info.log_dir@),
        (labels.base_url@, info.base_url@),
    ]);
    (f, token)
}

} // verus!

verus! {

/// The debug view: the fields, then the token field, all labels padded to
/// the widest.
pub struct DebugInfoView {
    pub fields: Fields,
    pub token_label: Span,
    pub token: Line,
}

impl DebugInfoView {
    pub open spec fn width(&self) -> usize {
        let w = crate::text::fields::label_width(self.fields.fields@);
        if w >= self.token_label.width_spec() {
            w
        } else {
            self.token_label.width_spec()
        }
    }

    pub open spec fn chars(&self, color: bool) -> Seq<char> {
        crate::text::fields::fields_chars(
            self.fields.fields@,
            self.width(),
            self.fields.indent,
            self.fields.gap,
            color,
        ) + crate::text::spaces(self.fields.indent as nat) + self.token_label.chars(color)
            + crate::text::spaces(
            crate::text::sat_add(
                crate::text::sat_sub(self.width(), self.token_label.width_spec()),
                self.fields.gap,
            ) as nat,
        ) + self.token.chars(color) + seq!['\n']
    }

    /// The view of `info`: each label, dimmed, with its plain value, and
    /// the token line last.
    pub fn new(info: &DebugInfo, labels: &DebugLabels, token: Line) -> (r: Self)
        ensures
            r.fields.indent == 0,
            r.fields.gap == 2,
            fields_text(r.fields.fields@) == seq![
                (labels.version@, info.version@),
                (labels.user_agent@, info.user_agent@),
                (labels.locale@, info.locale@),
                (labels.features@, info.features@),
                (labels.config@, info.config@),
                (labels.log_dir@, info.log_dir@),
                (labels.base_url@, info.base_url@),
            ],
            crate::view::styled_as_fields(r.fields.fields@),
            r.token_label.content@ == labels.token@,
            r.token_label.style == Some(Style::plain().with_dimmed()),
            r.token == token,
    {
        let (fields, token) = debug_info_view(info, labels, token);
        DebugInfoView {
            fields,
            token_label: Span::styled(labels.token.clone(), theme::label()),
            token,
        }
    }
}

impl crate::text::Render for DebugInfoView {
    open spec fn fails(&self) -> bool {
        false
    }

    open spec fn rendered(&self, color: bool) -> Seq<u8> {
        vstd::utf8::encode_utf8(self.chars(color))
    }

    fn render(&self, ctx: &mut crate::text::RenderContext) -> (r: Result<(), crate::text::RenderError>) {
        let w0 = self.fields.label_width();
        let lw = self.token_label.width();
        let w = if w0 >= lw {
            w0
        } else {
            lw
        };
        let mut c = self.fields.to_chars_with_width(w, ctx.color);
        crate::text::push_spaces(&mut c, self.fields.indent);
        let l = self.token_label.to_chars(ctx.color);
        crate::strs::push_all(&mut c, l.as_slice());
        crate::text::push_spaces(
            &mut c,
            crate::text::saturating_add(crate::text::saturating_sub(w, lw), self.fields.gap),
        );
        let t = self.token.to_chars(ctx.color);
        crate::strs::push_all(&mut c, t.as_slice());
        c.push('\n');
        assert(c@ =~= self.chars(ctx.color));
        ctx.write_chars(c.as_slice());
        Ok(())
    }
}

} // verus!
