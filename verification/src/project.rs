//! Projects: the `d1v project` arguments, which project a command works
//! on, and the project views.
use crate::strs::{chars_of, push_str, string_of, trim, trim_ws};
use crate::text::fields::{Field, Fields};
use crate::text::style::Style;
use crate::text::table::TableRow;
use crate::text::{Render, RenderContext, RenderError};
use crate::theme;
use crate::view::{
    field, field_flag, field_opt, fields_text, flag_text, heading, heading_ok, listing_ok,
    name_and_id, name_with_id, opt_str, or_dash, plain_row, row_of, string_texts, styled_as_fields,
    Listing, Section,
};
use vstd::prelude::*;
use vstd::utf8::*;

verus! {

/// `d1v project` subcommands.
#[derive(Debug)]
pub enum ProjectCommand {
    /// List projects
    List,
    /// List supported project templates
    Templates,
    /// Get project details
    Get(GetArgs),
    /// Create a project
    Create(CreateArgs),
    /// Update a project
    Update(UpdateArgs),
    /// Ensure project integrations are enabled
    Ensure(EnsureArgs),
    /// Delete a project
    Delete(DeleteArgs),
}

#[derive(Debug, Clone)]
pub struct GetArgs {
    /// Project ID
    pub project_id: Option<String>,
    /// Ask backend to refresh synced project state
    pub sync: bool,
}

#[derive(Debug, Clone)]
pub struct CreateArgs {
    /// Project name for direct project creation
    pub name: Option<String>,
    /// Project description for direct project creation
    pub description: Option<String>,
    /// One-step AI project creation prompt
    pub prompt: Option<String>,
    /// Template repo for AI project creation
    pub template_repo: Option<String>,
    /// Auto deploy after execution
    pub auto_deploy: Option<bool>,
    /// Enable database integration in one-step creation
    pub enable_database: Option<bool>,
    /// Enable payment integration in one-step creation
    pub enable_pay: Option<bool>,
    /// Target organization ID; omit for a personal project
    pub organization_id: Option<u64>,
}

#[derive(Debug, Clone)]
pub struct UpdateArgs {
    /// Project ID
    pub project_id: Option<String>,
    /// New project name
    pub name: Option<String>,
    /// New project description
    pub description: Option<String>,
    /// Project emoji
    pub emoji: Option<String>,
    /// Override auto-deploy-on-execute
    pub auto_deploy: Option<bool>,
}

impl UpdateArgs {
    /// Whether the update changes nothing.
    pub fn is_empty(&self) -> (r: bool)
        ensures
            r == (self.name is None && self.description is None && self.emoji is None
                && self.auto_deploy is None),
    {
        self.name.is_none() && self.description.is_none() && self.emoji.is_none()
            && self.auto_deploy.is_none()
    }
}

/// An integration `d1v project ensure` can switch on.
#[derive(Debug, Clone, Copy, PartialEq, Eq)]
pub enum EnsureTarget {
    Database,
    Pay,
    Analytics,
}

#[derive(Debug, Clone)]
pub struct EnsureArgs {
    /// Integration targets to ensure
    pub targets: Vec<EnsureTarget>,
    /// Project ID override (defaults to `.env`, D1V_PROJECT_ID, or workspace binding)
    pub project_id: Option<String>,
    /// Resolve workspace metadata from this path instead of the current directory
    pub path: Option<String>,
}

#[derive(Debug, Clone)]
pub struct DeleteArgs {
    /// Project ID
    pub project_id: Option<String>,
}

/// Where the project id of a command may come from, in the order they are
/// tried after the command line: the `.env` file, the `D1V_PROJECT_ID`
/// variable, the workspace binding.
#[derive(Debug, Clone)]
pub struct ProjectIdSources {
    pub env_file: Option<String>,
    pub env_var: Option<String>,
    pub bound: Option<String>,
}

pub open spec fn nonblank(o: Option<Seq<char>>) -> Option<Seq<char>> {
    match o {
        Some(s) => if trim_ws(s).len() > 0 {
            Some(s)
        } else {
            None
        },
        None => None,
    }
}

/// The id a command uses: the one given unless blank, else the `.env`
/// file's, else the variable's unless blank, else the binding's.
pub open spec fn chosen_project_id(explicit: Option<Seq<char>>, src: ProjectIdSources) -> Option<
    Seq<char>,
> {
    match nonblank(explicit) {
        Some(s) => Some(s),
        None => match opt_str(src.env_file) {
            Some(s) => Some(s),
            None => match nonblank(opt_str(src.env_var)) {
                Some(s) => Some(s),
                None => opt_str(src.bound),
            },
        },
    }
}

fn nonblank_exec(o: Option<String>) -> (r: Option<String>)
    ensures
        opt_str(r) == nonblank(opt_str(o)),
{
    match o {
        Some(s) => if trim(chars_of(s.as_str()).as_slice()).len() > 0 {
            Some(s)
        } else {
            None
        },
        None => None,
    }
}

/// Picks the project id of a command, or fails with a hint.
pub fn resolve_project_id(explicit: Option<String>, src: ProjectIdSources) -> (r: Result<
    String,
    String,
>)
    ensures
        match chosen_project_id(opt_str(explicit), src) {
            Some(id) => r matches Ok(s) && s@ == id,
            None => r matches Err(m) && m@
                == "project id is required; pass PROJECT_ID or add D1V_PROJECT_ID to .env"@,
        },
{
    let ghost src0 = src;
    match nonblank_exec(explicit) {
        Some(s) => return Ok(s),
        None => {},
    }
    let ProjectIdSources { env_file, env_var, bound } = src;
    match env_file {
        Some(s) => return Ok(s),
        None => {},
    }
    match nonblank_exec(env_var) {
        Some(s) => return Ok(s),
        None => {},
    }
    match bound {
        Some(s) => Ok(s),
        None => Err("project id is required; pass PROJECT_ID or add D1V_PROJECT_ID to .env".to_owned()),
    }
}

/// For `project ensure` the id given on the command line is trimmed.
pub open spec fn ensure_project_id(explicit: Option<Seq<char>>, src: ProjectIdSources) -> Option<
    Seq<char>,
> {
    match nonblank(explicit) {
        Some(s) => Some(trim_ws(s)),
        None => chosen_project_id(None, src),
    }
}

pub fn resolve_ensure_project_id(explicit: Option<String>, src: ProjectIdSources) -> (r: Result<
    String,
    String,
>)
    ensures
        match ensure_project_id(opt_str(explicit), src) {
            Some(id) => r matches Ok(s) && s@ == id,
            None => r matches Err(m) && m@
                == "project id is required. Set D1V_PROJECT_ID, pass --project-id, or run inside a bound d1v workspace."@,
        },
{
    match nonblank_exec(explicit) {
        Some(s) => {
            let t = trim(chars_of(s.as_str()).as_slice());
            return Ok(string_of(t.as_slice()));
        },
        None => {},
    }
    match resolve_project_id(None, src) {
        Ok(s) => Ok(s),
        Err(_) => Err(
            "project id is required. Set D1V_PROJECT_ID, pass --project-id, or run inside a bound d1v workspace.".to_owned(),
        ),
    }
}

} // verus!

verus! {

/// What the project views show of a project. Times are already written as
/// `YYYY-MM-DD HH:MM:SS`.
#[derive(Debug, Clone)]
pub struct Project {
    pub id: String,
    pub project_name: String,
    pub project_description: String,
    pub emoji: Option<String>,
    pub repository_full_name: Option<String>,
    pub repository_branch: Option<String>,
    pub workspace_current_branch: Option<String>,
    pub latest_preview_url: Option<String>,
    pub latest_dev_deployment_url: Option<String>,
    pub latest_prod_deployment_url: Option<String>,
    pub created_at: Option<String>,
    pub updated_at: Option<String>,
    pub auto_deploy_on_execute: Option<bool>,
    pub analytics_enabled: Option<bool>,
    pub project_database_id: Option<String>,
    pub project_pay_id: Option<String>,
}

/// A project template.
#[derive(Debug, Clone)]
pub struct Template {
    pub template_repo: String,
    pub name: String,
    pub category: Option<String>,
    pub kind: Option<String>,
}

pub open spec fn project_cells(p: Project) -> Seq<Seq<char>> {
    seq![
        p.id@,
        p.project_name@,
        or_dash(opt_str(p.repository_full_name)),
        match p.updated_at {
            Some(t) => t@,
            None => seq![],
        },
    ]
}

/// The project list: id, name, repository and last update of each.
pub fn project_list_view(projects: &Vec<Project>) -> (r: Listing)
    ensures
        listing_ok(
            r,
            "No projects found."@,
            seq!["id"@, "name"@, "repo"@, "updated_at"@],
            Seq::new(projects@.len(), |i: int| project_cells(projects@[i])),
        ),
{
    let ghost cells = Seq::new(projects@.len(), |i: int| project_cells(projects@[i]));
    let mut rows: Vec<TableRow> = Vec::new();
    let mut i: usize = 0;
    while i < projects.len()
        invariant
            i <= projects@.len(),
            cells == Seq::new(projects@.len(), |i: int| project_cells(projects@[i])),
            rows@.len() == i,
            forall|j: int| 0 <= j < i ==> plain_row(#[trigger] rows@[j], cells[j]),
        decreases projects@.len() - i,
    {
        let p = &projects[i];
        let mut c: Vec<String> = Vec::new();
        c.push(p.id.clone());
        c.push(p.project_name.clone());
        c.push(
            match &p.repository_full_name {
                Some(s) => s.clone(),
                None => "-".to_owned(),
            },
        );
        c.push(
            match &p.updated_at {
                Some(s) => s.clone(),
                None => String::new(),
            },
        );
        assert(string_texts(c@) =~= cells[i as int]);
        rows.push(row_of(c));
        i = i + 1;
    }
    let mut h: Vec<String> = Vec::new();
    h.push("id".to_owned());
    h.push("name".to_owned());
    h.push("repo".to_owned());
    h.push("updated_at".to_owned());
    assert(string_texts(h@) =~= seq!["id"@, "name"@, "repo"@, "updated_at"@]);
    let ghost header = seq!["id"@, "name"@, "repo"@, "updated_at"@];
    crate::view::listing("No projects found.", row_of(h), rows, Ghost(header), Ghost(cells))
}

pub open spec fn template_cells(t: Template) -> Seq<Seq<char>> {
    seq![t.template_repo@, t.name@, or_dash(opt_str(t.category)), or_dash(opt_str(t.kind))]
}

/// The templates: repository, name, category and kind of each.
pub fn project_templates_view(templates: &Vec<Template>) -> (r: Listing)
    ensures
        listing_ok(
            r,
            "No templates found."@,
            seq!["template_repo"@, "name"@, "category"@, "kind"@],
            Seq::new(templates@.len(), |i: int| template_cells(templates@[i])),
        ),
{
    let ghost cells = Seq::new(templates@.len(), |i: int| template_cells(templates@[i]));
    let mut rows: Vec<TableRow> = Vec::new();
    let mut i: usize = 0;
    while i < templates.len()
        invariant
            i <= templates@.len(),
            cells == Seq::new(templates@.len(), |i: int| template_cells(templates@[i])),
            rows@.len() == i,
            forall|j: int| 0 <= j < i ==> plain_row(#[trigger] rows@[j], cells[j]),
        decreases templates@.len() - i,
    {
        let t = &templates[i];
        let mut c: Vec<String> = Vec::new();
        c.push(t.template_repo.clone());
        c.push(t.name.clone());
        c.push(
            match &t.category {
                Some(s) => s.clone(),
                None => "-".to_owned(),
            },
        );
        c.push(
            match &t.kind {
                Some(s) => s.clone(),
                None => "-".to_owned(),
            },
        );
        assert(string_texts(c@) =~= cells[i as int]);
        rows.push(row_of(c));
        i = i + 1;
    }
    let mut h: Vec<String> = Vec::new();
    h.push("template_repo".to_owned());
    h.push("name".to_owned());
    h.push("category".to_owned());
    h.push("kind".to_owned());
    assert(string_texts(h@) =~= seq!["template_repo"@, "name"@, "category"@, "kind"@]);
    let ghost header = seq!["template_repo"@, "name"@, "category"@, "kind"@];
    crate::view::listing("No templates found.", row_of(h), rows, Ghost(header), Ghost(cells))
}

/// The fields of a project's details, in order.
pub open spec fn project_fields(p: Project) -> Seq<(Seq<char>, Seq<char>)> {
    seq![
        ("Description"@, p.project_description@),
        ("Emoji"@, or_dash(opt_str(p.emoji))),
        ("Repository"@, or_dash(opt_str(p.repository_full_name))),
        ("Repo branch"@, or_dash(opt_str(p.repository_branch))),
        ("Workspace branch"@, or_dash(opt_str(p.workspace_current_branch))),
        ("Preview URL"@, or_dash(opt_str(p.latest_preview_url))),
        ("Dev URL"@, or_dash(opt_str(p.latest_dev_deployment_url))),
        ("Prod URL"@, or_dash(opt_str(p.latest_prod_deployment_url))),
        ("Created"@, or_dash(opt_str(p.created_at))),
        ("Updated"@, or_dash(opt_str(p.updated_at))),
        ("Auto deploy"@, flag_text(p.auto_deploy_on_execute)),
        ("Analytics"@, flag_text(p.analytics_enabled)),
        ("Database"@, or_dash(opt_str(p.project_database_id))),
        ("Payments"@, or_dash(opt_str(p.project_pay_id))),
    ]
}

/// A project's details: a green title with `NAME (ID)`, then its fields
/// indented by two.
pub fn project_detail_view(title: &str, p: &Project) -> (r: Section)
    ensures
        heading_ok(r.heading, title@, Some(name_and_id(p.project_name@, p.id@))),
        r.fields.indent == 2,
        r.fields.gap == 2,
        styled_as_fields(r.fields.fields@),
        fields_text(r.fields.fields@) == project_fields(*p),
{
    let mut fs: Vec<Field> = Vec::new();
    fs.push(field("Description", p.project_description.as_str()));
    fs.push(field_opt("Emoji", &p.emoji));
    fs.push(field_opt("Repository", &p.repository_full_name));
    fs.push(field_opt("Repo branch", &p.repository_branch));
    fs.push(field_opt("Workspace branch", &p.workspace_current_branch));
    fs.push(field_opt("Preview URL", &p.latest_preview_url));
    fs.push(field_opt("Dev URL", &p.latest_dev_deployment_url));
    fs.push(field_opt("Prod URL", &p.latest_prod_deployment_url));
    fs.push(field_opt("Created", &p.created_at));
    fs.push(field_opt("Updated", &p.updated_at));
    fs.push(field_flag("Auto deploy", p.auto_deploy_on_execute));
    fs.push(field_flag("Analytics", p.analytics_enabled));
    fs.push(field_opt("Database", &p.project_database_id));
    fs.push(field_opt("Payments", &p.project_pay_id));
    let title_detail = name_with_id(p.project_name.as_str(), p.id.as_str());
    let r = Section { heading: heading(title, Some(title_detail)), fields: Fields::new(fs).indent(2) };
    assert(fields_text(r.fields.fields@) =~= project_fields(*p));
    r
}

/// The session a one-step creation started.
#[derive(Debug, Clone)]
pub struct CreatedSession {
    pub session_id: String,
    pub model: Option<String>,
    pub status: Option<String>,
    pub websocket_url: Option<String>,
}

/// A created project, and the session started with it when there is one,
/// after a blank line.
pub struct ProjectCreateView {
    pub project: Section,
    pub session: Option<Section>,
}

impl ProjectCreateView {
    pub open spec fn chars(&self, color: bool) -> Seq<char> {
        self.project.chars(color) + match self.session {
            Some(s) => seq!['\n'] + s.chars(color),
            None => seq![],
        }
    }

    pub fn new(project: &Project, session: &Option<CreatedSession>) -> (r: Self)
        ensures
            heading_ok(r.project.heading, "Created"@, Some(name_and_id(project.project_name@, project.id@))),
            r.project.fields.indent == 2,
            styled_as_fields(r.project.fields.fields@),
            fields_text(r.project.fields.fields@) == project_fields(*project),
            r.session is Some <==> session is Some,
            session matches Some(s) ==> {
                let sec = r.session.unwrap();
                &&& heading_ok(sec.heading, "Initial session"@, Some(s.session_id@))
                &&& sec.fields.indent == 2
                &&& styled_as_fields(sec.fields.fields@)
                &&& fields_text(sec.fields.fields@) == seq![
                    ("Model"@, or_dash(opt_str(s.model))),
                    ("Status"@, or_dash(opt_str(s.status))),
                    ("WebSocket"@, or_dash(opt_str(s.websocket_url))),
                ]
            },
    {
        let p = project_detail_view("Created", project);
        let s = match session {
            Some(s) => {
                let mut fs: Vec<Field> = Vec::new();
                fs.push(field_opt("Model", &s.model));
                fs.push(field_opt("Status", &s.status));
                fs.push(field_opt("WebSocket", &s.websocket_url));
                let sec = Section {
                    heading: heading("Initial session", Some(s.session_id.clone())),
                    fields: Fields::new(fs).indent(2),
                };
                assert(fields_text(sec.fields.fields@) =~= seq![
                    ("Model"@, or_dash(opt_str(s.model))),
                    ("Status"@, or_dash(opt_str(s.status))),
                    ("WebSocket"@, or_dash(opt_str(s.websocket_url))),
                ]);
                Some(sec)
            },
            None => None,
        };
        ProjectCreateView { project: p, session: s }
    }
}

impl Render for ProjectCreateView {
    open spec fn fails(&self) -> bool {
        false
    }

    open spec fn rendered(&self, color: bool) -> Seq<u8> {
        encode_utf8(self.chars(color))
    }

    fn render(&self, ctx: &mut RenderContext) -> (r: Result<(), RenderError>) {
        let mut c = self.project.heading.to_chars(ctx.color);
        let f = self.project.fields.to_chars(ctx.color);
        crate::strs::push_all(&mut c, f.as_slice());
        match &self.session {
            Some(s) => {
                c.push('\n');
                let h = s.heading.to_chars(ctx.color);
                crate::strs::push_all(&mut c, h.as_slice());
                let f = s.fields.to_chars(ctx.color);
                crate::strs::push_all(&mut c, f.as_slice());
            },
            None => {},
        }
        assert(c@ =~= self.chars(ctx.color));
        ctx.write_chars(c.as_slice());
        Ok(())
    }
}

/// How an integration came out of `project ensure`.
#[derive(Debug, Clone)]
pub struct EnsureStatus {
    pub status: String,
    pub message: String,
    pub error: Option<String>,
}

/// `STATUS: MESSAGE`, with ` (ERROR)` when there is an error.
pub open spec fn ensure_status_text(s: EnsureStatus) -> Seq<char> {
    s.status@ + ": "@ + s.message@ + match s.error {
        Some(e) => " ("@ + e@ + ")"@,
        None => seq![],
    }
}

pub fn render_ensure_status(s: &EnsureStatus) -> (r: String)
    ensures
        r@ == ensure_status_text(*s),
{
    let mut v: Vec<char> = Vec::new();
    push_str(&mut v, s.status.as_str());
    push_str(&mut v, ": ");
    push_str(&mut v, s.message.as_str());
    match &s.error {
        Some(e) => {
            push_str(&mut v, " (");
            push_str(&mut v, e.as_str());
            push_str(&mut v, ")");
        },
        None => {},
    }
    assert(v@ =~= ensure_status_text(*s));
    string_of(v.as_slice())
}

/// The strings joined with `sep` between them.
pub open spec fn joined(parts: Seq<Seq<char>>, sep: Seq<char>) -> Seq<char>
    decreases parts.len(),
{
    if parts.len() == 0 {
        seq![]
    } else if parts.len() == 1 {
        parts[0]
    } else {
        joined(parts.drop_last(), sep) + sep + parts.last()
    }
}

pub fn join_strings(parts: &Vec<String>, sep: &str) -> (r: String)
    ensures
        r@ == joined(string_texts(parts@), sep@),
{
    let ghost ps = string_texts(parts@);
    let mut v: Vec<char> = Vec::new();
    let mut i: usize = 0;
    while i < parts.len()
        invariant
            i <= parts@.len(),
            ps == string_texts(parts@),
            v@ == joined(ps.take(i as int), sep@),
        decreases parts@.len() - i,
    {
        assert(ps.take(i + 1).drop_last() =~= ps.take(i as int));
        if i > 0 {
            push_str(&mut v, sep);
        }
        push_str(&mut v, parts[i].as_str());
        assert(ps.take(i + 1).last() == parts@[i as int]@);
        proof {
            if i == 0 {
                assert(ps.take(1)[0] == ps[0]);
            }
        }
        i = i + 1;
    }
    assert(ps.take(parts@.len() as int) =~= ps);
    string_of(v.as_slice())
}

/// The result of `project ensure`.
#[derive(Debug, Clone)]
pub struct EnsureResult {
    pub project_id: String,
    pub project_name: String,
    pub database: EnsureStatus,
    pub pay: EnsureStatus,
    pub analytics: EnsureStatus,
    pub errors: Vec<String>,
}

/// `project ensure`: the project and each integration's status, then the
/// errors joined by `; ` when there are any, aligned on their own.
pub struct ProjectEnsureView {
    pub summary: Section,
    pub errors: Option<Fields>,
}

impl ProjectEnsureView {
    pub open spec fn chars(&self, color: bool) -> Seq<char> {
        self.summary.chars(color) + match self.errors {
            Some(f) => f.chars(color),
            None => seq![],
        }
    }

    pub fn new(result: &EnsureResult) -> (r: Self)
        ensures
            heading_ok(r.summary.heading, "Ensured"@, Some(name_and_id(result.project_name@, result.project_id@))),
            r.summary.fields.indent == 2,
            styled_as_fields(r.summary.fields.fields@),
            fields_text(r.summary.fields.fields@) == seq![
                ("Database"@, ensure_status_text(result.database)),
                ("Pay"@, ensure_status_text(result.pay)),
                ("Analytics"@, ensure_status_text(result.analytics)),
            ],
            r.errors is Some <==> result.errors@.len() > 0,
            r.errors matches Some(f) ==> f.indent == 2 && styled_as_fields(f.fields@) && fields_text(
                f.fields@,
            ) == seq![("Errors"@, joined(string_texts(result.errors@), "; "@))],
    {
        let mut fs: Vec<Field> = Vec::new();
        let d = render_ensure_status(&result.database);
        fs.push(field("Database", d.as_str()));
        let p = render_ensure_status(&result.pay);
        fs.push(field("Pay", p.as_str()));
        let a = render_ensure_status(&result.analytics);
        fs.push(field("Analytics", a.as_str()));
        let summary = Section {
            heading: heading(
                "Ensured",
                Some(name_with_id(result.project_name.as_str(), result.project_id.as_str())),
            ),
            fields: Fields::new(fs).indent(2),
        };
        assert(fields_text(summary.fields.fields@) =~= seq![
            ("Database"@, ensure_status_text(result.database)),
            ("Pay"@, ensure_status_text(result.pay)),
            ("Analytics"@, ensure_status_text(result.analytics)),
        ]);
        let errors = if result.errors.len() > 0 {
            let j = join_strings(&result.errors, "; ");
            let mut es: Vec<Field> = Vec::new();
            es.push(field("Errors", j.as_str()));
            let f = Fields::new(es).indent(2);
            assert(fields_text(f.fields@) =~= seq![("Errors"@, joined(string_texts(result.errors@), "; "@))]);
            Some(f)
        } else {
            None
        };
        ProjectEnsureView { summary, errors }
    }
}

impl Render for ProjectEnsureView {
    open spec fn fails(&self) -> bool {
        false
    }

    open spec fn rendered(&self, color: bool) -> Seq<u8> {
        encode_utf8(self.chars(color))
    }

    fn render(&self, ctx: &mut RenderContext) -> (r: Result<(), RenderError>) {
        let mut c = self.summary.heading.to_chars(ctx.color);
        let f = self.summary.fields.to_chars(ctx.color);
        crate::strs::push_all(&mut c, f.as_slice());
        match &self.errors {
            Some(e) => {
                let g = e.to_chars(ctx.color);
                crate::strs::push_all(&mut c, g.as_slice());
            },
            None => {},
        }
        assert(c@ =~= self.chars(ctx.color));
        ctx.write_chars(c.as_slice());
        Ok(())
    }
}

} // verus!
