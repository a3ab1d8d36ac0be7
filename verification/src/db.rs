//! The database commands: their arguments and the views of schemas,
//! branches, rows, tokens and migrations. Talking to the platform and
//! reading JSON are the caller's part.
use crate::project::{join_strings, joined};
use crate::strs::{dec, push_dec, push_str, string_of};
use crate::text::fields::{Field, Fields};
use crate::text::style::Style;
use crate::text::table::{Table, TableRow};
use crate::text::text::Text;
use crate::text::{Render, RenderContext, RenderError};
use crate::theme;
use crate::view::{
    field, field_flag, field_opt, fields_text, flag_text, heading, heading_ok, listing_ok, opt_str,
    or_dash, plain_row, row_of, string_texts, styled_as_fields, Listing, Section,
};
use vstd::prelude::*;
use vstd::utf8::*;

verus! {

#[derive(Debug)]
pub enum DbCommand {
    /// Inspect database schema
    Schema(SchemaArgs),
    /// Inspect sampled database data
    Data(DataArgs),
    /// List available Neon branches
    Branches(ProjectArgs),
    /// Manage tables
    Tables {
        command: TableCommand,
    },
    /// Manage rows
    Rows {
        command: RowCommand,
    },
    /// Issue or refresh project-scoped DB/migration tokens
    Token {
        command: TokenCommand,
    },
    /// Manage migrations
    Migrate {
        command: MigrateCommand,
    },
}

#[derive(Debug)]
pub enum TableCommand {
    /// Create a table
    Create(TableCreateArgs),
    /// Rename a table
    Rename(TableRenameArgs),
    /// Drop a table
    Drop(TableDropArgs),
}

#[derive(Debug)]
pub enum RowCommand {
    /// List rows from a table
    List(RowListArgs),
    /// Insert one row
    Insert(RowInsertArgs),
    /// Update rows by equality match
    Update(RowUpdateArgs),
    /// Delete rows by equality match
    Delete(RowDeleteArgs),
}

#[derive(Debug)]
pub enum TokenCommand {
    /// Issue a new project token
    Issue(TokenArgs),
    /// Refresh a project token
    Refresh(TokenArgs),
}

#[derive(Debug)]
pub enum MigrateCommand {
    /// Create a migration plan from SQL
    Plan(MigratePlanArgs),
    /// Validate a migration plan
    Validate(MigrateValidateArgs),
    /// Create an approval request
    Approve(MigrateApproveArgs),
    /// Auto-review an approval request
    AutoReview(MigrateApprovalIdArgs),
    /// Manually approve an approval request
    ManualApprove(MigrateApprovalIdArgs),
    /// Execute an approved migration
    Execute(MigrateExecuteArgs),
    /// Show migration history
    History(MigrateHistoryArgs),
    /// Show migration plan detail
    Detail(MigrateDetailArgs),
}

#[derive(Debug, Clone)]
pub struct ProjectArgs {
    pub project_id: String,
}

#[derive(Debug, Clone)]
pub struct SchemaArgs {
    pub project_id: String,
    pub branch: Option<String>,
    pub include_views: bool,
    pub with_row_counts: bool,
    pub include_system_schemas: bool,
}

#[derive(Debug, Clone)]
pub struct DataArgs {
    pub project_id: String,
    pub branch: Option<String>,
    pub limit_per_table: u32,
    pub include_views: bool,
    pub include_system_schemas: bool,
}

#[derive(Debug, Clone)]
pub struct TableCreateArgs {
    pub project_id: String,
    pub schema: String,
    pub table: String,
    /// JSON array of column definitions
    pub columns: String,
    pub primary_key: Vec<String>,
    pub branch: Option<String>,
    pub create_schema_if_missing: bool,
}

#[derive(Debug, Clone)]
pub struct TableRenameArgs {
    pub project_id: String,
    pub schema: String,
    pub table: String,
    pub new_table_name: String,
    pub branch: Option<String>,
}

#[derive(Debug, Clone)]
pub struct TableDropArgs {
    pub project_id: String,
    pub schema: String,
    pub table: String,
    pub branch: Option<String>,
    pub cascade: bool,
}

#[derive(Debug, Clone)]
pub struct RowListArgs {
    pub project_id: String,
    pub schema: String,
    pub table: String,
    pub branch: Option<String>,
    pub limit: u32,
    pub offset: u32,
}

#[derive(Debug, Clone)]
pub struct RowInsertArgs {
    pub project_id: String,
    pub schema: String,
    pub table: String,
    /// JSON object payload for inserted values
    pub values: String,
    pub branch: Option<String>,
}

#[derive(Debug, Clone)]
pub struct RowUpdateArgs {
    pub project_id: String,
    pub schema: String,
    pub table: String,
    /// JSON object payload used as equality filter
    pub where_json: String,
    /// JSON object payload for updated values
    pub values: String,
    pub branch: Option<String>,
}

#[derive(Debug, Clone)]
pub struct RowDeleteArgs {
    pub project_id: String,
    pub schema: String,
    pub table: String,
    /// JSON object payload used as equality filter
    pub where_json: String,
    pub branch: Option<String>,
}

#[derive(Debug, Clone)]
pub struct TokenArgs {
    /// Project ID
    pub project_id: String,
    /// Optional comma-separated scopes like db:read,db:write,migrate
    pub scopes: Vec<String>,
    /// Token TTL in seconds
    pub ttl_seconds: u32,
}

#[derive(Debug, Clone)]
pub struct MigratePlanArgs {
    pub project_id: String,
    pub sql: String,
    pub intent: Option<String>,
}

#[derive(Debug, Clone)]
pub struct MigrateValidateArgs {
    pub plan_id: String,
    pub sql: Option<String>,
}

#[derive(Debug, Clone)]
pub struct MigrateApproveArgs {
    pub plan_id: String,
    pub risk_summary: Option<String>,
    pub expires_in_minutes: Option<u32>,
}

#[derive(Debug, Clone)]
pub struct MigrateApprovalIdArgs {
    pub approval_id: String,
}

#[derive(Debug, Clone)]
pub struct MigrateExecuteArgs {
    pub plan_id: String,
    pub approval_token: String,
    pub strategy: Option<String>,
}

#[derive(Debug, Clone)]
pub struct MigrateHistoryArgs {
    pub project_id: String,
    pub limit: u32,
    pub offset: u32,
}

#[derive(Debug, Clone)]
pub struct MigrateDetailArgs {
    pub plan_id: String,
}

} // verus!

verus! {

/// A title over one field, as the table, row and approval commands report.
pub fn single_field_view(title: &str, label: &str, value: &str) -> (r: Section)
    ensures
        heading_ok(r.heading, title@, None),
        r.fields.indent == 2,
        styled_as_fields(r.fields.fields@),
        fields_text(r.fields.fields@) == seq![(label@, value@)],
{
    let mut fs: Vec<Field> = Vec::new();
    fs.push(field(label, value));
    let r = Section { heading: heading(title, None), fields: Fields::new(fs).indent(2) };
    assert(fields_text(r.fields.fields@) =~= seq![(label@, value@)]);
    r
}

/// A message from the database service under a title.
pub fn db_message_view(title: &str, message: &str) -> (r: Section)
    ensures
        heading_ok(r.heading, title@, None),
        r.fields.indent == 2,
        styled_as_fields(r.fields.fields@),
        fields_text(r.fields.fields@) == seq![("Message"@, message@)],
{
    single_field_view(title, "Message", message)
}

/// How many rows a change touched, under a title.
pub fn db_affected_view(title: &str, affected: u64) -> (r: Section)
    ensures
        heading_ok(r.heading, title@, None),
        r.fields.indent == 2,
        styled_as_fields(r.fields.fields@),
        fields_text(r.fields.fields@) == seq![("Affected"@, dec(affected as nat))],
{
    let n = crate::strs::dec_string(affected);
    single_field_view(title, "Affected", n.as_str())
}

/// A table of the schema.
#[derive(Debug, Clone)]
pub struct SchemaTable {
    pub schema: String,
    pub name: String,
    pub kind: String,
    pub column_count: u64,
    pub row_count: Option<u64>,
}

/// The schema of a project's database.
#[derive(Debug, Clone)]
pub struct DbSchema {
    pub default_schema: Option<String>,
    pub tables: Vec<SchemaTable>,
}

pub open spec fn schema_cells(t: SchemaTable) -> Seq<Seq<char>> {
    seq![t.schema@, t.name@, t.kind@, dec(t.column_count as nat), match t.row_count {
        Some(n) => dec(n as nat),
        None => "-"@,
    }]
}

pub open spec fn schema_title(default_schema: Option<Seq<char>>) -> Seq<char> {
    "Database schema"@ + match default_schema {
        Some(d) => " (default: "@ + d + ")"@,
        None => seq![],
    }
}

/// The schema view: a note when there is no table, else a green title
/// naming the default schema over a table of the tables.
pub enum DbSchemaView {
    Empty(Text),
    Tables { title: Text, table: Table },
}

impl DbSchemaView {
    pub open spec fn chars(&self, color: bool) -> Seq<char> {
        match self {
            DbSchemaView::Empty(t) => t.chars(color),
            DbSchemaView::Tables { title, table } => title.chars(color) + table.chars(color),
        }
    }

    pub fn new(schema: &DbSchema) -> (r: Self)
        ensures
            schema.tables@.len() == 0 ==> (r matches DbSchemaView::Empty(t) && crate::view::lines_are(
                t,
                seq![("No tables found."@, Some(Style::plain().with_dimmed()))],
            )),
            schema.tables@.len() > 0 ==> (r matches DbSchemaView::Tables { title, table }
                && crate::view::lines_are(
                title,
                seq![(schema_title(opt_str(schema.default_schema)), Some(
                    Style::plain().with_fg(crate::text::style::AnsiColor::Green),
                ))],
            ) && listing_ok(
                Listing::Rows(table),
                "No tables found."@,
                seq!["schema"@, "table"@, "kind"@, "columns"@, "rows"@],
                Seq::new(schema.tables@.len(), |i: int| schema_cells(schema.tables@[i])),
            )),
    {
        let ghost cells = Seq::new(schema.tables@.len(), |i: int| schema_cells(schema.tables@[i]));
        let mut rows: Vec<TableRow> = Vec::new();
        let mut i: usize = 0;
        while i < schema.tables.len()
            invariant
                i <= schema.tables@.len(),
                cells == Seq::new(schema.tables@.len(), |i: int| schema_cells(schema.tables@[i])),
                rows@.len() == i,
                forall|j: int| 0 <= j < i ==> plain_row(#[trigger] rows@[j], cells[j]),
            decreases schema.tables@.len() - i,
        {
            let t = &schema.tables[i];
            let mut c: Vec<String> = Vec::new();
            c.push(t.schema.clone());
            c.push(t.name.clone());
            c.push(t.kind.clone());
            c.push(crate::strs::dec_string(t.column_count));
            c.push(
                match t.row_count {
                    Some(n) => crate::strs::dec_string(n),
                    None => "-".to_owned(),
                },
            );
            assert(string_texts(c@) =~= cells[i as int]);
            rows.push(row_of(c));
            i = i + 1;
        }
        let mut h: Vec<String> = Vec::new();
        h.push("schema".to_owned());
        h.push("table".to_owned());
        h.push("kind".to_owned());
        h.push("columns".to_owned());
        h.push("rows".to_owned());
        let ghost header = seq!["schema"@, "table"@, "kind"@, "columns"@, "rows"@];
        assert(string_texts(h@) =~= header);
        let l = crate::view::listing("No tables found.", row_of(h), rows, Ghost(header), Ghost(cells));
        match l {
            Listing::Empty(t) => DbSchemaView::Empty(t),
            Listing::Rows(table) => {
                let mut v: Vec<char> = Vec::new();
                push_str(&mut v, "Database schema");
                match &schema.default_schema {
                    Some(d) => {
                        push_str(&mut v, " (default: ");
                        push_str(&mut v, d.as_str());
                        push_str(&mut v, ")");
                    },
                    None => {},
                }
                assert(v@ =~= schema_title(opt_str(schema.default_schema)));
                let title = crate::view::LinesBuilder::new().styled(
                    string_of(v.as_slice()),
                    theme::success(),
                );
                assert(title.expected@ =~= seq![(schema_title(opt_str(schema.default_schema)), Some(
                    Style::plain().with_fg(crate::text::style::AnsiColor::Green),
                ))]);
                DbSchemaView::Tables { title: title.text, table }
            },
        }
    }
}

impl Render for DbSchemaView {
    open spec fn fails(&self) -> bool {
        false
    }

    open spec fn rendered(&self, color: bool) -> Seq<u8> {
        encode_utf8(self.chars(color))
    }

    fn render(&self, ctx: &mut RenderContext) -> (r: Result<(), RenderError>) {
        let c = match self {
            DbSchemaView::Empty(t) => t.to_chars(ctx.color),
            DbSchemaView::Tables { title, table } => {
                let mut c = title.to_chars(ctx.color);
                let t = table.to_chars(ctx.color);
                crate::strs::push_all(&mut c, t.as_slice());
                c
            },
        };
        ctx.write_chars(c.as_slice());
        Ok(())
    }
}

/// A database branch.
#[derive(Debug, Clone)]
pub struct DbBranch {
    pub id: String,
    pub name: String,
    pub primary: Option<bool>,
}

pub open spec fn branch_cells(b: DbBranch) -> Seq<Seq<char>> {
    seq![b.id@, b.name@, if b.primary == Some(true) { "true"@ } else { "false"@ }]
}

/// The branches: id, name and whether each is the primary one.
pub fn db_branches_view(branches: &Vec<DbBranch>) -> (r: Listing)
    ensures
        listing_ok(
            r,
            "No branches found."@,
            seq!["id"@, "name"@, "primary"@],
            Seq::new(branches@.len(), |i: int| branch_cells(branches@[i])),
        ),
{
    let ghost cells = Seq::new(branches@.len(), |i: int| branch_cells(branches@[i]));
    let mut rows: Vec<TableRow> = Vec::new();
    let mut i: usize = 0;
    while i < branches.len()
        invariant
            i <= branches@.len(),
            cells == Seq::new(branches@.len(), |i: int| branch_cells(branches@[i])),
            rows@.len() == i,
            forall|j: int| 0 <= j < i ==> plain_row(#[trigger] rows@[j], cells[j]),
        decreases branches@.len() - i,
    {
        let b = &branches[i];
        let primary = match b.primary {
            Some(p) => p,
            None => false,
        };
        let mut c: Vec<String> = Vec::new();
        c.push(b.id.clone());
        c.push(b.name.clone());
        c.push(if primary { "true".to_owned() } else { "false".to_owned() });
        proof {
            reveal_strlit("true");
            reveal_strlit("false");
        }
        assert(string_texts(c@) =~= cells[i as int]);
        rows.push(row_of(c));
        i = i + 1;
    }
    let mut h: Vec<String> = Vec::new();
    h.push("id".to_owned());
    h.push("name".to_owned());
    h.push("primary".to_owned());
    let ghost header = seq!["id"@, "name"@, "primary"@];
    assert(string_texts(h@) =~= header);
    crate::view::listing("No branches found.", row_of(h), rows, Ghost(header), Ghost(cells))
}

/// A JSON value under a title, after a blank line; `rendered` is the value
/// as pretty-printed JSON.
pub fn db_value_view(title: &str, rendered: &str) -> (r: Text)
    ensures
        crate::view::lines_are(
            r,
            seq![
                (title@, Some(Style::plain().with_fg(crate::text::style::AnsiColor::Green))),
                (seq![], None),
                (rendered@, None),
            ],
        ),
{
    let b = crate::view::LinesBuilder::new().styled(title.to_owned(), theme::success()).plain(
        String::new(),
    ).plain(rendered.to_owned());
    assert(b.expected@ =~= seq![
        (title@, Some(Style::plain().with_fg(crate::text::style::AnsiColor::Green))),
        (seq![], None),
        (rendered@, None),
    ]);
    b.text
}

/// Rows as JSON lines under `Rows (N)`, or a note when there is none;
/// `rows` holds each row written as compact JSON.
pub fn db_rows_view(rows: &Vec<String>) -> (r: Text)
    ensures
        rows@.len() == 0 ==> crate::view::lines_are(
            r,
            seq![("No rows found."@, Some(Style::plain().with_dimmed()))],
        ),
        rows@.len() > 0 ==> crate::view::lines_are(
            r,
            seq![("Rows ("@ + dec(rows@.len()) + ")"@, Some(
                Style::plain().with_fg(crate::text::style::AnsiColor::Green),
            ))] + Seq::new(rows@.len(), |i: int| (rows@[i]@, None::<Style>)),
        ),
{
    if rows.len() == 0 {
        let b = crate::view::LinesBuilder::new().styled("No rows found.".to_owned(), theme::dim());
        assert(b.expected@ =~= seq![("No rows found."@, Some(Style::plain().with_dimmed()))]);
        return b.text;
    }
    let mut v: Vec<char> = Vec::new();
    push_str(&mut v, "Rows (");
    push_dec(&mut v, rows.len() as u64);
    push_str(&mut v, ")");
    let ghost title = "Rows ("@ + dec(rows@.len()) + ")"@;
    assert(v@ =~= title);
    let mut b = crate::view::LinesBuilder::new().styled(string_of(v.as_slice()), theme::success());
    let ghost head = seq![(title, Some(Style::plain().with_fg(crate::text::style::AnsiColor::Green)))];
    assert(b.expected@ =~= head);
    let mut i: usize = 0;
    while i < rows.len()
        invariant
            i <= rows@.len(),
            crate::view::lines_are(b.text, b.expected@),
            b.expected@ == head + Seq::new(i as nat, |k: int| (rows@[k]@, None::<Style>)),
        decreases rows@.len() - i,
    {
        b = b.plain(rows[i].clone());
        assert(b.expected@ =~= head + Seq::new((i + 1) as nat, |k: int| (rows@[k]@, None::<Style>)));
        i = i + 1;
    }
    b.text
}

/// A new migration plan.
#[derive(Debug, Clone)]
pub struct PlanResponse {
    pub plan_id: String,
    pub project_id: String,
    pub intent: String,
    pub created_at: String,
}

pub fn plan_view(p: &PlanResponse) -> (r: Section)
    ensures
        heading_ok(r.heading, "Migration plan"@, Some(p.plan_id@)),
        r.fields.indent == 2,
        styled_as_fields(r.fields.fields@),
        fields_text(r.fields.fields@) == seq![
            ("Project"@, p.project_id@),
            ("Intent"@, p.intent@),
            ("Created"@, p.created_at@),
        ],
{
    let mut fs: Vec<Field> = Vec::new();
    fs.push(field("Project", p.project_id.as_str()));
    fs.push(field("Intent", p.intent.as_str()));
    fs.push(field("Created", p.created_at.as_str()));
    let r = Section {
        heading: heading("Migration plan", Some(p.plan_id.clone())),
        fields: Fields::new(fs).indent(2),
    };
    assert(fields_text(r.fields.fields@) =~= seq![
        ("Project"@, p.project_id@),
        ("Intent"@, p.intent@),
        ("Created"@, p.created_at@),
    ]);
    r
}

/// The strings joined by `sep`, or `-` when there is none.
pub open spec fn joined_or_dash(parts: Seq<Seq<char>>, sep: Seq<char>) -> Seq<char> {
    if parts.len() == 0 {
        "-"@
    } else {
        joined(parts, sep)
    }
}

fn join_or_dash(parts: &Vec<String>, sep: &str) -> (r: String)
    ensures
        r@ == joined_or_dash(string_texts(parts@), sep@),
{
    if parts.len() == 0 {
        "-".to_owned()
    } else {
        join_strings(parts, sep)
    }
}

/// A migration validation.
#[derive(Debug, Clone)]
pub struct ValidateResponse {
    pub job_id: String,
    pub plan_id: String,
    pub stage: String,
    pub status: String,
    pub statement_count: u64,
    pub fallback_to_dry_run: Option<bool>,
    pub warnings: Vec<String>,
}

pub fn validate_view(v: &ValidateResponse) -> (r: Section)
    ensures
        heading_ok(r.heading, "Migration validation"@, Some(v.job_id@)),
        r.fields.indent == 2,
        styled_as_fields(r.fields.fields@),
        fields_text(r.fields.fields@) == seq![
            ("Plan"@, v.plan_id@),
            ("Stage"@, v.stage@),
            ("Status"@, v.status@),
            ("Statements"@, dec(v.statement_count as nat)),
            ("Dry-run fallback"@, flag_text(v.fallback_to_dry_run)),
            ("Warnings"@, joined_or_dash(string_texts(v.warnings@), "; "@)),
        ],
{
    let mut fs: Vec<Field> = Vec::new();
    fs.push(field("Plan", v.plan_id.as_str()));
    fs.push(field("Stage", v.stage.as_str()));
    fs.push(field("Status", v.status.as_str()));
    let n = crate::strs::dec_string(v.statement_count);
    fs.push(field("Statements", n.as_str()));
    fs.push(field_flag("Dry-run fallback", v.fallback_to_dry_run));
    let w = join_or_dash(&v.warnings, "; ");
    fs.push(field("Warnings", w.as_str()));
    let r = Section {
        heading: heading("Migration validation", Some(v.job_id.clone())),
        fields: Fields::new(fs).indent(2),
    };
    assert(fields_text(r.fields.fields@) =~= seq![
        ("Plan"@, v.plan_id@),
        ("Stage"@, v.stage@),
        ("Status"@, v.status@),
        ("Statements"@, dec(v.statement_count as nat)),
        ("Dry-run fallback"@, flag_text(v.fallback_to_dry_run)),
        ("Warnings"@, joined_or_dash(string_texts(v.warnings@), "; "@)),
    ]);
    r
}

/// A migration approval request.
#[derive(Debug, Clone)]
pub struct ApprovalResponse {
    pub approval_id: String,
    pub plan_id: String,
    pub status: String,
    pub approval_token: Option<String>,
    pub created_at: String,
    pub expires_at: String,
}

pub fn approval_view(title: &str, a: &ApprovalResponse) -> (r: Section)
    ensures
        heading_ok(r.heading, title@, Some(a.approval_id@)),
        r.fields.indent == 2,
        styled_as_fields(r.fields.fields@),
        fields_text(r.fields.fields@) == seq![
            ("Plan"@, a.plan_id@),
            ("Status"@, a.status@),
            ("Approval token"@, or_dash(opt_str(a.approval_token))),
            ("Created"@, a.created_at@),
            ("Expires"@, a.expires_at@),
        ],
{
    let mut fs: Vec<Field> = Vec::new();
    fs.push(field("Plan", a.plan_id.as_str()));
    fs.push(field("Status", a.status.as_str()));
    fs.push(field_opt("Approval token", &a.approval_token));
    fs.push(field("Created", a.created_at.as_str()));
    fs.push(field("Expires", a.expires_at.as_str()));
    let r = Section { heading: heading(title, Some(a.approval_id.clone())), fields: Fields::new(fs).indent(2) };
    assert(fields_text(r.fields.fields@) =~= seq![
        ("Plan"@, a.plan_id@),
        ("Status"@, a.status@),
        ("Approval token"@, or_dash(opt_str(a.approval_token))),
        ("Created"@, a.created_at@),
        ("Expires"@, a.expires_at@),
    ]);
    r
}

/// An automatic review; the risk score comes written out, as it may be
/// fractional.
#[derive(Debug, Clone)]
pub struct AutoReviewResponse {
    pub status: String,
    pub approval_token: Option<String>,
    pub risk_score: Option<String>,
    pub reasons: Option<Vec<String>>,
}

pub open spec fn reasons_text(reasons: Option<Vec<String>>) -> Seq<char> {
    match reasons {
        Some(r) => joined(string_texts(r@), "; "@),
        None => "-"@,
    }
}

pub fn auto_review_view(a: &AutoReviewResponse) -> (r: Section)
    ensures
        heading_ok(r.heading, "Migration auto review"@, None),
        r.fields.indent == 2,
        styled_as_fields(r.fields.fields@),
        fields_text(r.fields.fields@) == seq![
            ("Status"@, a.status@),
            ("Approval token"@, or_dash(opt_str(a.approval_token))),
            ("Risk score"@, or_dash(opt_str(a.risk_score))),
            ("Reasons"@, reasons_text(a.reasons)),
        ],
{
    let reasons = match &a.reasons {
        Some(r) => join_strings(r, "; "),
        None => "-".to_owned(),
    };
    let mut fs: Vec<Field> = Vec::new();
    fs.push(field("Status", a.status.as_str()));
    fs.push(field_opt("Approval token", &a.approval_token));
    fs.push(field_opt("Risk score", &a.risk_score));
    fs.push(field("Reasons", reasons.as_str()));
    let r = Section { heading: heading("Migration auto review", None), fields: Fields::new(fs).indent(2) };
    assert(fields_text(r.fields.fields@) =~= seq![
        ("Status"@, a.status@),
        ("Approval token"@, or_dash(opt_str(a.approval_token))),
        ("Risk score"@, or_dash(opt_str(a.risk_score))),
        ("Reasons"@, reasons_text(a.reasons)),
    ]);
    r
}

/// A migration execution.
#[derive(Debug, Clone)]
pub struct ExecuteResponse {
    pub job_id: String,
    pub plan_id: String,
    pub stage: String,
    pub status: String,
    pub created_at: String,
    pub fallback_to_dry_run: Option<bool>,
}

pub fn execute_view(e: &ExecuteResponse) -> (r: Section)
    ensures
        heading_ok(r.heading, "Migration execution"@, Some(e.job_id@)),
        r.fields.indent == 2,
        styled_as_fields(r.fields.fields@),
        fields_text(r.fields.fields@) == seq![
            ("Plan"@, e.plan_id@),
            ("Stage"@, e.stage@),
            ("Status"@, e.status@),
            ("Created"@, e.created_at@),
            ("Dry-run fallback"@, flag_text(e.fallback_to_dry_run)),
        ],
{
    let mut fs: Vec<Field> = Vec::new();
    fs.push(field("Plan", e.plan_id.as_str()));
    fs.push(field("Stage", e.stage.as_str()));
    fs.push(field("Status", e.status.as_str()));
    fs.push(field("Created", e.created_at.as_str()));
    fs.push(field_flag("Dry-run fallback", e.fallback_to_dry_run));
    let r = Section {
        heading: heading("Migration execution", Some(e.job_id.clone())),
        fields: Fields::new(fs).indent(2),
    };
    assert(fields_text(r.fields.fields@) =~= seq![
        ("Plan"@, e.plan_id@),
        ("Stage"@, e.stage@),
        ("Status"@, e.status@),
        ("Created"@, e.created_at@),
        ("Dry-run fallback"@, flag_text(e.fallback_to_dry_run)),
    ]);
    r
}

/// A project token.
#[derive(Debug, Clone)]
pub struct ProjectTokenResponse {
    pub expires_at: String,
    pub scopes: Vec<String>,
    pub project_token: String,
}

pub fn project_token_view(title: &str, t: &ProjectTokenResponse) -> (r: Section)
    ensures
        heading_ok(r.heading, title@, None),
        r.fields.indent == 2,
        styled_as_fields(r.fields.fields@),
        fields_text(r.fields.fields@) == seq![
            ("Expires"@, t.expires_at@),
            ("Scopes"@, joined_or_dash(string_texts(t.scopes@), ","@)),
            ("Token"@, t.project_token@),
        ],
{
    let scopes = join_or_dash(&t.scopes, ",");
    let mut fs: Vec<Field> = Vec::new();
    fs.push(field("Expires", t.expires_at.as_str()));
    fs.push(field("Scopes", scopes.as_str()));
    fs.push(field("Token", t.project_token.as_str()));
    let r = Section { heading: heading(title, None), fields: Fields::new(fs).indent(2) };
    assert(fields_text(r.fields.fields@) =~= seq![
        ("Expires"@, t.expires_at@),
        ("Scopes"@, joined_or_dash(string_texts(t.scopes@), ","@)),
        ("Token"@, t.project_token@),
    ]);
    r
}

/// A JSON value of a migration plan, as the caller found it.
#[derive(Debug, Clone)]
pub enum JsonCell {
    Null,
    Text(String),
    /// Any other value, written as JSON.
    Other(String),
}

/// A value as a cell: a string as it is, `-` for null or a missing key,
/// anything else as JSON.
pub open spec fn cell_text(c: Option<JsonCell>) -> Seq<char> {
    match c {
        Some(JsonCell::Text(t)) => t@,
        Some(JsonCell::Other(j)) => j@,
        _ => "-"@,
    }
}

fn cell_string(c: &Option<JsonCell>) -> (r: String)
    ensures
        r@ == cell_text(*c),
{
    match c {
        Some(JsonCell::Text(t)) => t.clone(),
        Some(JsonCell::Other(j)) => j.clone(),
        _ => "-".to_owned(),
    }
}

/// The keys of a migration plan the history shows; `None` for a key that
/// is not there.
#[derive(Debug, Clone)]
pub struct MigrationPlanRow {
    pub id: Option<JsonCell>,
    pub plan_id: Option<JsonCell>,
    pub intent: Option<JsonCell>,
    pub created_at: Option<JsonCell>,
    pub status: Option<JsonCell>,
}

/// The id column shows `id` when the key is there (even if null), else
/// `plan_id`.
pub open spec fn migration_cells(p: MigrationPlanRow) -> Seq<Seq<char>> {
    seq![
        match p.id {
            Some(c) => cell_text(Some(c)),
            None => cell_text(p.plan_id),
        },
        cell_text(p.intent),
        cell_text(p.created_at),
        cell_text(p.status),
    ]
}

pub fn migration_history_view(plans: &Vec<MigrationPlanRow>) -> (r: Listing)
    ensures
        listing_ok(
            r,
            "No migration history found."@,
            seq!["plan_id"@, "intent"@, "created_at"@, "status"@],
            Seq::new(plans@.len(), |i: int| migration_cells(plans@[i])),
        ),
{
    let ghost cells = Seq::new(plans@.len(), |i: int| migration_cells(plans@[i]));
    let mut rows: Vec<TableRow> = Vec::new();
    let mut i: usize = 0;
    while i < plans.len()
        invariant
            i <= plans@.len(),
            cells == Seq::new(plans@.len(), |i: int| migration_cells(plans@[i])),
            rows@.len() == i,
            forall|j: int| 0 <= j < i ==> plain_row(#[trigger] rows@[j], cells[j]),
        decreases plans@.len() - i,
    {
        let p = &plans[i];
        let id = match &p.id {
            Some(_) => cell_string(&p.id),
            None => cell_string(&p.plan_id),
        };
        let mut c: Vec<String> = Vec::new();
        c.push(id);
        c.push(cell_string(&p.intent));
        c.push(cell_string(&p.created_at));
        c.push(cell_string(&p.status));
        assert(string_texts(c@) =~= cells[i as int]);
        rows.push(row_of(c));
        i = i + 1;
    }
    let mut h: Vec<String> = Vec::new();
    h.push("plan_id".to_owned());
    h.push("intent".to_owned());
    h.push("created_at".to_owned());
    h.push("status".to_owned());
    let ghost header = seq!["plan_id"@, "intent"@, "created_at"@, "status"@];
    assert(string_texts(h@) =~= header);
    crate::view::listing("No migration history found.", row_of(h), rows, Ghost(header), Ghost(cells))
}

} // verus!
