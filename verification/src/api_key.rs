//! Personal API keys: the `d1v api-key` arguments, finding a key by id or
//! name, the name rules of a new key, when a revocation is confirmed, and
//! the key views. The labels and messages come in the user's language from the caller.
use crate::strs::{chars_of, int_dec, push_int_dec, string_of, trim, trim_ws};
use crate::text::fields::{Field, Fields};
use crate::text::line::Line;
use crate::text::span::Span;
use crate::text::style::{AnsiColor, Style};
use crate::text::table::{Table, TableRow};
use crate::text::text::Text;
use crate::theme;
use crate::view::{opt_str, or_dash, plain_row, row_of, string_texts};
use vstd::prelude::*;

verus! {

/// `d1v api-key` subcommands.
#[derive(Debug)]
pub enum ApiKeyCommand {
    /// List API keys
    List,
    /// Get a specific API key
    Get(ApiKeyGetArgs),
    /// Create a new API key
    Create(ApiKeyCreateArgs),
    /// Revoke an API key
    Revoke(ApiKeyRevokeArgs),
}

/// A name or, instead, an id is given.
#[derive(Debug, Clone)]
pub struct ApiKeyGetArgs {
    /// API key name
    pub name: Option<String>,
    /// Get by numeric ID instead of name
    pub id: Option<i64>,
}

#[derive(Debug, Clone)]
pub struct ApiKeyCreateArgs {
    /// API key name (prompts interactively if omitted)
    pub name: Option<String>,
    /// Description for the API key
    pub description: Option<String>,
}

/// A name or, instead, an id is given.
#[derive(Debug, Clone)]
pub struct ApiKeyRevokeArgs {
    /// API key name
    pub name: Option<String>,
    /// Revoke by numeric ID instead of name
    pub id: Option<i64>,
    /// Skip confirmation prompt
    pub yes: bool,
}

/// An API key of the user; times already written as `YYYY-MM-DD HH:MM:SS`.
#[derive(Debug, Clone)]
pub struct UserApiKey {
    pub id: i64,
    pub name: String,
    pub key_prefix: String,
    pub description: Option<String>,
    pub created_at: Option<String>,
    pub last_used_at: Option<String>,
}

/// Why no key was found.
#[derive(Debug, Clone, PartialEq, Eq)]
pub enum ApiKeyLookupError {
    NoSuchId(i64),
    NoSuchName(String),
}

/// Finds the key a command names: by id when one is given, else by name.
pub fn find_api_key(keys: &Vec<UserApiKey>, id: Option<i64>, name: &Option<String>) -> (r: Result<
    usize,
    ApiKeyLookupError,
>)
    requires
        id is Some || name is Some,
    ensures
        match r {
            Ok(i) => i < keys@.len() && (match id {
                Some(n) => keys@[i as int].id == n && forall|j: int| 0 <= j < i ==> keys@[j].id != n,
                None => keys@[i as int].name@ == name.unwrap()@ && forall|j: int|
                    0 <= j < i ==> keys@[j].name@ != name.unwrap()@,
            }),
            Err(e) => match id {
                Some(n) => e == ApiKeyLookupError::NoSuchId(n) && forall|j: int|
                    0 <= j < keys@.len() ==> keys@[j].id != n,
                None => (e matches ApiKeyLookupError::NoSuchName(m) && m@ == name.unwrap()@)
                    && forall|j: int| 0 <= j < keys@.len() ==> keys@[j].name@ != name.unwrap()@,
            },
        },
{
    let mut i: usize = 0;
    match id {
        Some(n) => {
            while i < keys.len()
                invariant
                    i <= keys@.len(),
                    id == Some(n),
                    forall|j: int| 0 <= j < i ==> keys@[j].id != n,
                decreases keys@.len() - i,
            {
                if keys[i].id == n {
                    return Ok(i);
                }
                i = i + 1;
            }
            Err(ApiKeyLookupError::NoSuchId(n))
        },
        None => {
            let wanted: &String = match name {
                Some(s) => s,
                None => {
                    return Err(ApiKeyLookupError::NoSuchName(String::new()));
                },
            };
            let w = chars_of(wanted.as_str());
            while i < keys.len()
                invariant
                    i <= keys@.len(),
                    w@ == wanted@,
                    id is None,
                    *name == Some(*wanted),
                    forall|j: int| 0 <= j < i ==> keys@[j].name@ != wanted@,
                decreases keys@.len() - i,
            {
                if crate::strs::seq_eq(chars_of(keys[i].name.as_str()).as_slice(), w.as_slice()) {
                    return Ok(i);
                }
                i = i + 1;
            }
            Err(ApiKeyLookupError::NoSuchName(wanted.clone()))
        },
    }
}

/// How a new key gets its name.
#[derive(Debug, Clone, PartialEq, Eq)]
pub enum NewKeyName {
    /// The name given, trimmed.
    Given(String),
    /// Ask for it.
    Prompt,
    /// A blank name was given.
    Empty,
    /// No name, and no terminal to ask on.
    Required,
}

pub fn new_key_name(name: &Option<String>, interactive: bool) -> (r: NewKeyName)
    ensures
        match name {
            Some(n) => if trim_ws(n@).len() == 0 {
                r == NewKeyName::Empty
            } else {
                r matches NewKeyName::Given(g) && g@ == trim_ws(n@)
            },
            None => if interactive {
                r == NewKeyName::Prompt
            } else {
                r == NewKeyName::Required
            },
        },
{
    match name {
        Some(n) => {
            let t = trim(chars_of(n.as_str()).as_slice());
            if t.len() == 0 {
                NewKeyName::Empty
            } else {
                NewKeyName::Given(string_of(t.as_slice()))
            }
        },
        None => if interactive {
            NewKeyName::Prompt
        } else {
            NewKeyName::Required
        },
    }
}

/// A prompted description: trimmed, and none when blank.
pub fn prompted_description(answer: &str) -> (r: Option<String>)
    ensures
        match r {
            Some(d) => trim_ws(answer@).len() > 0 && d@ == trim_ws(answer@),
            None => trim_ws(answer@).len() == 0,
        },
{
    let t = trim(chars_of(answer).as_slice());
    if t.len() == 0 {
        None
    } else {
        Some(string_of(t.as_slice()))
    }
}

/// What happens before a key is revoked.
#[derive(Debug, Clone, Copy, PartialEq, Eq)]
pub enum RevokeStep {
    /// Revoke at once.
    Revoke,
    /// Ask the user to confirm.
    Confirm,
    /// Refuse: confirmation is needed and there is no terminal.
    NeedsConfirmation,
}

pub fn revoke_step(yes: bool, interactive: bool) -> (r: RevokeStep)
    ensures
        r == (if yes {
            RevokeStep::Revoke
        } else if interactive {
            RevokeStep::Confirm
        } else {
            RevokeStep::NeedsConfirmation
        }),
{
    if yes {
        RevokeStep::Revoke
    } else if interactive {
        RevokeStep::Confirm
    } else {
        RevokeStep::NeedsConfirmation
    }
}

/// The localized labels of the key views.
#[derive(Debug, Clone)]
pub struct ApiKeyLabels {
    pub id: String,
    pub name: String,
    pub prefix: String,
    pub description: String,
    pub created: String,
    pub last_used: String,
}

pub open spec fn key_cells(k: UserApiKey) -> Seq<Seq<char>> {
    seq![
        int_dec(k.id as int),
        k.name@,
        k.key_prefix@,
        or_dash(opt_str(k.description)),
        or_dash(opt_str(k.created_at)),
        or_dash(opt_str(k.last_used_at)),
    ]
}

fn dash_or(o: &Option<String>) -> (r: String)
    ensures
        r@ == or_dash(opt_str(*o)),
{
    match o {
        Some(s) => s.clone(),
        None => "-".to_owned(),
    }
}

fn key_cells_exec(k: &UserApiKey) -> (r: Vec<String>)
    ensures
        string_texts(r@) == key_cells(*k),
        r@.len() == 6,
{
    let mut v: Vec<char> = Vec::new();
    push_int_dec(&mut v, k.id);
    let mut c: Vec<String> = Vec::new();
    c.push(string_of(v.as_slice()));
    c.push(k.name.clone());
    c.push(k.key_prefix.clone());
    c.push(dash_or(&k.description));
    c.push(dash_or(&k.created_at));
    c.push(dash_or(&k.last_used_at));
    assert(string_texts(c@) =~= key_cells(*k));
    c
}

/// The list of keys: the localized note when there is none, else a table
/// with the labels, dimmed, as header.
pub enum ApiKeyList {
    Empty(Text),
    Keys(Table),
}

pub open spec fn labelled_header(h: TableRow, labels: ApiKeyLabels) -> bool {
    let l = seq![labels.id@, labels.name@, labels.prefix@, labels.description@, labels.created@, labels.last_used@];
    &&& h.cells@.len() == 6
    &&& forall|i: int|
        0 <= i < 6 ==> (#[trigger] h.cells@[i]).spans@.len() == 1 && h.cells@[i].spans@[0].content@
            == l[i] && h.cells@[i].spans@[0].style == Some(Style::plain().with_dimmed())
}

impl ApiKeyList {
    pub fn new(keys: &Vec<UserApiKey>, labels: &ApiKeyLabels, empty_message: &str) -> (r: Self)
        ensures
            keys@.len() == 0 ==> (r matches ApiKeyList::Empty(t) && crate::view::lines_are(
                t,
                seq![(empty_message@, None)],
            )),
            keys@.len() > 0 ==> (r matches ApiKeyList::Keys(t) && t.header matches Some(h)
                && labelled_header(h, *labels) && t.rows@.len() == keys@.len() && (forall|i: int|
                0 <= i < keys@.len() ==> plain_row(#[trigger] t.rows@[i], key_cells(keys@[i])))
                && t.indent == 0 && t.border_style == Style::plain().with_dimmed()),
    {
        if keys.len() == 0 {
            let b = crate::view::LinesBuilder::new().plain(empty_message.to_owned());
            assert(b.expected@ =~= seq![(empty_message@, None)]);
            return ApiKeyList::Empty(b.text);
        }
        let mut rows: Vec<TableRow> = Vec::new();
        let mut i: usize = 0;
        while i < keys.len()
            invariant
                i <= keys@.len(),
                rows@.len() == i,
                forall|j: int| 0 <= j < i ==> plain_row(#[trigger] rows@[j], key_cells(keys@[j])),
            decreases keys@.len() - i,
        {
            rows.push(row_of(key_cells_exec(&keys[i])));
            i = i + 1;
        }
        let mut h: Vec<Line> = Vec::new();
        h.push(Line::styled(labels.id.clone(), theme::label()));
        h.push(Line::styled(labels.name.clone(), theme::label()));
        h.push(Line::styled(labels.prefix.clone(), theme::label()));
        h.push(Line::styled(labels.description.clone(), theme::label()));
        h.push(Line::styled(labels.created.clone(), theme::label()));
        h.push(Line::styled(labels.last_used.clone(), theme::label()));
        let header = TableRow::new(h);
        ApiKeyList::Keys(Table::new(rows).header(header).border_style(theme::dim()))
    }
}

impl ApiKeyList {
    pub open spec fn chars(&self, color: bool) -> Seq<char> {
        match self {
            ApiKeyList::Empty(t) => t.chars(color),
            ApiKeyList::Keys(t) => t.chars(color),
        }
    }
}

impl crate::text::Render for ApiKeyList {
    open spec fn fails(&self) -> bool {
        false
    }

    open spec fn rendered(&self, color: bool) -> Seq<u8> {
        vstd::utf8::encode_utf8(self.chars(color))
    }

    fn render(&self, ctx: &mut crate::text::RenderContext) -> (r: Result<(), crate::text::RenderError>) {
        match self {
            ApiKeyList::Empty(t) => t.render(ctx),
            ApiKeyList::Keys(t) => t.render(ctx),
        }
    }
}

/// One key: each localized label, dimmed, over the value as it is.
pub fn api_key_detail(k: &UserApiKey, labels: &ApiKeyLabels) -> (r: Fields)
    ensures
        r.indent == 0,
        r.gap == 2,
        r.fields@.len() == 6,
        crate::view::fields_text(r.fields@) == seq![
            (labels.id@, int_dec(k.id as int)),
            (labels.name@, k.name@),
            (labels.prefix@, k.key_prefix@),
            (labels.description@, or_dash(opt_str(k.description))),
            (labels.created@, or_dash(opt_str(k.created_at))),
            (labels.last_used@, or_dash(opt_str(k.last_used_at))),
        ],
        forall|i: int|
            0 <= i < 6 ==> (#[trigger] r.fields@[i]).label.style == Some(Style::plain().with_dimmed())
                && r.fields@[i].value.style is None,
{
    let c = key_cells_exec(k);
    let mut fs: Vec<Field> = Vec::new();
    fs.push(Field::new(Span::styled(labels.id.clone(), theme::label()), Span::raw(c[0].clone())));
    fs.push(Field::new(Span::styled(labels.name.clone(), theme::label()), Span::raw(c[1].clone())));
    fs.push(Field::new(Span::styled(labels.prefix.clone(), theme::label()), Span::raw(c[2].clone())));
    fs.push(Field::new(Span::styled(labels.description.clone(), theme::label()), Span::raw(c[3].clone())));
    fs.push(Field::new(Span::styled(labels.created.clone(), theme::label()), Span::raw(c[4].clone())));
    fs.push(Field::new(Span::styled(labels.last_used.clone(), theme::label()), Span::raw(c[5].clone())));
    let r = Fields::new(fs);
    assert(crate::view::fields_text(r.fields@) =~= seq![
        (labels.id@, int_dec(k.id as int)),
        (labels.name@, k.name@),
        (labels.prefix@, k.key_prefix@),
        (labels.description@, or_dash(opt_str(k.description))),
        (labels.created@, or_dash(opt_str(k.created_at))),
        (labels.last_used@, or_dash(opt_str(k.last_used_at))),
    ]);
    r
}

/// A new key: the localized success line, the key itself in yellow, and
/// the warning that it is shown only once.
pub fn api_key_created(success: &str, key: &str, warning: &str) -> (r: Text)
    ensures
        crate::view::lines_are(
            r,
            seq![(success@, None), (key@, Some(Style::plain().with_fg(AnsiColor::Yellow))), (warning@, None)],
        ),
{
    let b = crate::view::LinesBuilder::new().plain(success.to_owned()).styled(key.to_owned(), theme::warning()).plain(
        warning.to_owned(),
    );
    assert(b.expected@ =~= seq![
        (success@, None),
        (key@, Some(Style::plain().with_fg(AnsiColor::Yellow))),
        (warning@, None),
    ]);
    b.text
}

} // verus!
