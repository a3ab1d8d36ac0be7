//! Environment variables of a project: how a value is shown, finding a
//! variable, which writes `env set` makes, and the variable views. The
//! labels come in the user's language from the caller.
use super::KeyValue;
use crate::strs::{chars_of, dec, seq_eq};
use crate::text::fields::{Field, Fields};
use crate::text::line::Line;
use crate::text::span::Span;
use crate::text::style::Style;
use crate::text::table::{Table, TableRow};
use crate::text::text::Text;
use crate::theme;
use crate::view::{fields_text, opt_str, or_dash, plain_row, row_of, string_texts};
use vstd::prelude::*;

verus! {

/// A variable of a project.
#[derive(Debug, Clone)]
pub struct EnvVar {
    pub id: i64,
    pub key: String,
    pub value: Option<String>,
    pub value_preview: String,
    pub description: Option<String>,
    pub is_sensitive: bool,
}

/// The value shown: the value itself when revealing or when it is not
/// sensitive (`-` when there is none), else its masked preview.
pub open spec fn shown_value(v: EnvVar, reveal: bool) -> Seq<char> {
    if !reveal && v.is_sensitive {
        v.value_preview@
    } else {
        or_dash(opt_str(v.value))
    }
}

pub fn format_value(var: &EnvVar, reveal: bool) -> (r: &str)
    ensures
        r@ == shown_value(*var, reveal),
{
    if !reveal && var.is_sensitive {
        var.value_preview.as_str()
    } else {
        match &var.value {
            Some(v) => v.as_str(),
            None => "-",
        }
    }
}

/// The first variable with the id when one is given, else the first with
/// the key; `None` when there is no such variable.
pub fn find_env_var(vars: &Vec<EnvVar>, id: Option<i64>, key: &Option<String>) -> (r: Option<usize>)
    requires
        id is Some || key is Some,
    ensures
        match r {
            Some(i) => i < vars@.len() && match id {
                Some(n) => vars@[i as int].id == n && forall|j: int| 0 <= j < i ==> vars@[j].id != n,
                None => vars@[i as int].key@ == key.unwrap()@ && forall|j: int|
                    0 <= j < i ==> vars@[j].key@ != key.unwrap()@,
            },
            None => match id {
                Some(n) => forall|j: int| 0 <= j < vars@.len() ==> vars@[j].id != n,
                None => forall|j: int| 0 <= j < vars@.len() ==> vars@[j].key@ != key.unwrap()@,
            },
        },
{
    let mut i: usize = 0;
    match id {
        Some(n) => {
            while i < vars.len()
                invariant
                    i <= vars@.len(),
                    id == Some(n),
                    forall|j: int| 0 <= j < i ==> vars@[j].id != n,
                decreases vars@.len() - i,
            {
                if vars[i].id == n {
                    return Some(i);
                }
                i = i + 1;
            }
            None
        },
        None => {
            let wanted: &String = match key {
                Some(k) => k,
                None => {
                    return None;
                },
            };
            let w = chars_of(wanted.as_str());
            while i < vars.len()
                invariant
                    i <= vars@.len(),
                    id is None,
                    *key == Some(*wanted),
                    w@ == wanted@,
                    forall|j: int| 0 <= j < i ==> vars@[j].key@ != wanted@,
                decreases vars@.len() - i,
            {
                if seq_eq(chars_of(vars[i].key.as_str()).as_slice(), w.as_slice()) {
                    return Some(i);
                }
                i = i + 1;
            }
            None
        },
    }
}

/// A write `env set` makes for one `KEY=value`.
#[derive(Debug, Clone, PartialEq, Eq)]
pub enum EnvWrite {
    /// Update the variable with this id to the value.
    Update { id: i64, value: String },
    /// Create the variable.
    Create { key: String, value: String },
}

pub open spec fn key_index(existing: Seq<EnvVar>, key: Seq<char>) -> Option<int>
    decreases existing.len(),
{
    if existing.len() == 0 {
        None
    } else {
        match key_index(existing.drop_last(), key) {
            Some(i) => Some(i),
            None => if existing.last().key@ == key {
                Some(existing.len() - 1)
            } else {
                None
            },
        }
    }
}

/// Each assignment updates the first variable that already had its key,
/// and creates the variable otherwise; what existed is looked up before
/// any write.
pub open spec fn write_matches(w: EnvWrite, kv: KeyValue, existing: Seq<EnvVar>) -> bool {
    match key_index(existing, kv.key@) {
        Some(i) => w matches EnvWrite::Update { id, value } && id == existing[i].id && value@
            == kv.value@,
        None => w matches EnvWrite::Create { key, value } && key@ == kv.key@ && value@ == kv.value@,
    }
}

proof fn lemma_key_index(existing: Seq<EnvVar>, key: Seq<char>)
    ensures
        match key_index(existing, key) {
            Some(i) => 0 <= i < existing.len() && existing[i].key@ == key && forall|j: int|
                0 <= j < i ==> existing[j].key@ != key,
            None => forall|j: int| 0 <= j < existing.len() ==> existing[j].key@ != key,
        },
    decreases existing.len(),
{
    if existing.len() > 0 {
        let d = existing.drop_last();
        lemma_key_index(d, key);
        assert forall|j: int| 0 <= j < d.len() implies d[j] == existing[j] by {}
    }
}

pub fn plan_env_set(entries: &Vec<KeyValue>, existing: &Vec<EnvVar>) -> (r: Vec<EnvWrite>)
    ensures
        r@.len() == entries@.len(),
        forall|i: int| 0 <= i < entries@.len() ==> write_matches(#[trigger] r@[i], entries@[i], existing@),
{
    let mut out: Vec<EnvWrite> = Vec::new();
    let mut i: usize = 0;
    while i < entries.len()
        invariant
            i <= entries@.len(),
            out@.len() == i,
            forall|j: int| 0 <= j < i ==> write_matches(#[trigger] out@[j], entries@[j], existing@),
        decreases entries@.len() - i,
    {
        let kv = &entries[i];
        let key = Some(kv.key.clone());
        let found = find_env_var(existing, None, &key);
        proof {
            lemma_key_index(existing@, kv.key@);
        }
        let w = match found {
            Some(k) => {
                let ghost ki = key_index(existing@, kv.key@);
                assert(ki == Some(k as int)) by {
                    if let Some(m) = ki {
                        assert(!(m < k) && !(k < m));
                    }
                }
                EnvWrite::Update { id: existing[k].id, value: kv.value.clone() }
            },
            None => EnvWrite::Create { key: kv.key.clone(), value: kv.value.clone() },
        };
        out.push(w);
        i = i + 1;
    }
    out
}

/// The localized labels and words of the variable views.
#[derive(Debug, Clone)]
pub struct EnvLabels {
    pub key: String,
    pub value: String,
    pub description: String,
    pub sensitive: String,
    pub yes: String,
    pub no: String,
}

pub open spec fn yes_no(b: bool, labels: EnvLabels) -> Seq<char> {
    if b {
        labels.yes@
    } else {
        labels.no@
    }
}

pub open spec fn var_cells(v: EnvVar, reveal: bool, labels: EnvLabels) -> Seq<Seq<char>> {
    seq![v.key@, shown_value(v, reveal), or_dash(opt_str(v.description)), yes_no(v.is_sensitive, labels)]
}

fn var_cells_exec(v: &EnvVar, reveal: bool, labels: &EnvLabels) -> (r: Vec<String>)
    ensures
        string_texts(r@) == var_cells(*v, reveal, *labels),
        r@.len() == 4,
{
    let mut c: Vec<String> = Vec::new();
    c.push(v.key.clone());
    c.push(format_value(v, reveal).to_owned());
    c.push(
        match &v.description {
            Some(d) => d.clone(),
            None => "-".to_owned(),
        },
    );
    c.push(if v.is_sensitive { labels.yes.clone() } else { labels.no.clone() });
    assert(string_texts(c@) =~= var_cells(*v, reveal, *labels));
    c
}

/// The variables: the localized note when there is none, else a table
/// with the labels, dimmed, as header.
pub enum EnvVarList {
    Empty(Text),
    Vars(Table),
}

impl EnvVarList {
    pub open spec fn chars(&self, color: bool) -> Seq<char> {
        match self {
            EnvVarList::Empty(t) => t.chars(color),
            EnvVarList::Vars(t) => t.chars(color),
        }
    }

    pub fn new(vars: &Vec<EnvVar>, reveal: bool, labels: &EnvLabels, empty_message: &str) -> (r: Self)
        ensures
            vars@.len() == 0 ==> (r matches EnvVarList::Empty(t) && crate::view::lines_are(
                t,
                seq![(empty_message@, None)],
            )),
            vars@.len() > 0 ==> (r matches EnvVarList::Vars(t) && t.header is Some
                && t.rows@.len() == vars@.len() && (forall|i: int|
                0 <= i < vars@.len() ==> plain_row(#[trigger] t.rows@[i], var_cells(vars@[i], reveal, *labels)))
                && t.border_style == Style::plain().with_dimmed()),
    {
        if vars.len() == 0 {
            let b = crate::view::LinesBuilder::new().plain(empty_message.to_owned());
            assert(b.expected@ =~= seq![(empty_message@, None)]);
            return EnvVarList::Empty(b.text);
        }
        let mut rows: Vec<TableRow> = Vec::new();
        let mut i: usize = 0;
        while i < vars.len()
            invariant
                i <= vars@.len(),
                rows@.len() == i,
                forall|j: int| 0 <= j < i ==> plain_row(#[trigger] rows@[j], var_cells(vars@[j], reveal, *labels)),
            decreases vars@.len() - i,
        {
            rows.push(row_of(var_cells_exec(&vars[i], reveal, labels)));
            i = i + 1;
        }
        let mut h: Vec<Line> = Vec::new();
        h.push(Line::styled(labels.key.clone(), theme::label()));
        h.push(Line::styled(labels.value.clone(), theme::label()));
        h.push(Line::styled(labels.description.clone(), theme::label()));
        h.push(Line::styled(labels.sensitive.clone(), theme::label()));
        EnvVarList::Vars(Table::new(rows).header(TableRow::new(h)).border_style(theme::dim()))
    }
}

impl crate::text::Render for EnvVarList {
    open spec fn fails(&self) -> bool {
        false
    }

    open spec fn rendered(&self, color: bool) -> Seq<u8> {
        vstd::utf8::encode_utf8(self.chars(color))
    }

    fn render(&self, ctx: &mut crate::text::RenderContext) -> (r: Result<(), crate::text::RenderError>) {
        match self {
            EnvVarList::Empty(t) => t.render(ctx),
            EnvVarList::Vars(t) => t.render(ctx),
        }
    }
}

/// Label/value fields with the labels dimmed and the values unstyled.
pub open spec fn labelled_raw(fs: Seq<Field>) -> bool {
    forall|i: int|
        0 <= i < fs.len() ==> (#[trigger] fs[i]).label.style == Some(Style::plain().with_dimmed())
            && fs[i].value.style is None
}

fn raw_field(label: &String, value: String) -> (r: Field)
    ensures
        crate::view::field_text(r) == (label@, value@),
        r.label.style == Some(Style::plain().with_dimmed()),
        r.value.style is None,
{
    Field::new(Span::styled(label.clone(), theme::label()), Span::raw(value))
}

/// One variable: key, shown value, description and sensitivity.
pub fn env_var_detail(v: &EnvVar, reveal: bool, labels: &EnvLabels) -> (r: Fields)
    ensures
        r.indent == 0,
        r.gap == 2,
        labelled_raw(r.fields@),
        fields_text(r.fields@) == seq![
            (labels.key@, v.key@),
            (labels.value@, shown_value(*v, reveal)),
            (labels.description@, or_dash(opt_str(v.description))),
            (labels.sensitive@, yes_no(v.is_sensitive, *labels)),
        ],
{
    let c = var_cells_exec(v, reveal, labels);
    let mut fs: Vec<Field> = Vec::new();
    fs.push(raw_field(&labels.key, c[0].clone()));
    fs.push(raw_field(&labels.value, c[1].clone()));
    fs.push(raw_field(&labels.description, c[2].clone()));
    fs.push(raw_field(&labels.sensitive, c[3].clone()));
    let r = Fields::new(fs);
    assert(fields_text(r.fields@) =~= seq![
        (labels.key@, v.key@),
        (labels.value@, shown_value(*v, reveal)),
        (labels.description@, or_dash(opt_str(v.description))),
        (labels.sensitive@, yes_no(v.is_sensitive, *labels)),
    ]);
    r
}

/// What syncing with Vercel reports.
#[derive(Debug, Clone)]
pub struct SyncEnvVarsResponse {
    pub message: String,
    pub vercel_dev_project_id: String,
    pub dev_local_env_count: u64,
    pub dev_up_to_date: bool,
    pub vercel_prod_project_id: String,
    pub prod_local_env_count: u64,
    pub prod_up_to_date: bool,
}

/// The localized labels of the sync summary.
#[derive(Debug, Clone)]
pub struct SyncLabels {
    pub message: String,
    pub dev_project: String,
    pub dev_env_count: String,
    pub dev_up_to_date: String,
    pub prod_project: String,
    pub prod_env_count: String,
    pub prod_up_to_date: String,
    pub yes: String,
    pub no: String,
}

pub open spec fn sync_fields(s: SyncEnvVarsResponse, l: SyncLabels) -> Seq<(Seq<char>, Seq<char>)> {
    seq![
        (l.message@, s.message@),
        (l.dev_project@, s.vercel_dev_project_id@),
        (l.dev_env_count@, dec(s.dev_local_env_count as nat)),
        (l.dev_up_to_date@, if s.dev_up_to_date { l.yes@ } else { l.no@ }),
        (l.prod_project@, s.vercel_prod_project_id@),
        (l.prod_env_count@, dec(s.prod_local_env_count as nat)),
        (l.prod_up_to_date@, if s.prod_up_to_date { l.yes@ } else { l.no@ }),
    ]
}

/// The sync summary: the message and each environment's project, count
/// and whether it is up to date.
pub fn sync_summary(s: &SyncEnvVarsResponse, l: &SyncLabels) -> (r: Fields)
    ensures
        r.indent == 0,
        r.gap == 2,
        labelled_raw(r.fields@),
        fields_text(r.fields@) == sync_fields(*s, *l),
{
    let mut fs: Vec<Field> = Vec::new();
    fs.push(raw_field(&l.message, s.message.clone()));
    fs.push(raw_field(&l.dev_project, s.vercel_dev_project_id.clone()));
    fs.push(raw_field(&l.dev_env_count, crate::strs::dec_string(s.dev_local_env_count)));
    fs.push(raw_field(&l.dev_up_to_date, if s.dev_up_to_date { l.yes.clone() } else { l.no.clone() }));
    fs.push(raw_field(&l.prod_project, s.vercel_prod_project_id.clone()));
    fs.push(raw_field(&l.prod_env_count, crate::strs::dec_string(s.prod_local_env_count)));
    fs.push(raw_field(&l.prod_up_to_date, if s.prod_up_to_date { l.yes.clone() } else { l.no.clone() }));
    let r = Fields::new(fs);
    assert(fields_text(r.fields@) =~= sync_fields(*s, *l));
    r
}

} // verus!
