//! The GitHub App connection: the `d1v github` arguments, where `bind`
//! sends the user, and the GitHub views.
use crate::project::{join_strings, joined};
use crate::strs::{dec, push_str, string_of};
use crate::text::fields::{Field, Fields};
use crate::text::line::Line;
use crate::text::style::{AnsiColor, Style};
use crate::text::table::TableRow;
use crate::text::text::Text;
use crate::text::{Render, RenderContext, RenderError};
use crate::theme;
use crate::view::{
    field, field_flag, field_opt, fields_text, flag_text, heading, heading_ok, listing_ok,
    name_and_id, name_with_id, opt_str, or_dash, plain_row, row_of, string_texts, styled_as_fields,
    Listing, Section,
};
use vstd::prelude::*;
use vstd::utf8::*;

verus! {

/// The account settings page where GitHub is connected.
pub const DEFAULT_SETTINGS_URL: &'static str = "https://d1v.ai/setting?tab=github";

/// `d1v github` subcommands.
#[derive(Debug)]
pub enum GitHubCommand {
    /// Show GitHub App connection status
    Status,
    /// List GitHub App installations available to the current account
    Installations,
    /// Open the GitHub connect/install flow in browser
    Bind(BindArgs),
    /// List repositories for a GitHub App installation
    Repos(ReposArgs),
    /// Import a repository into d1v as a project
    Import(ImportArgs),
}

#[derive(Debug, Clone)]
pub struct BindArgs {
    /// Open the GitHub App installation page instead of OAuth connect
    pub install: bool,
    /// Print the resolved URL without opening a browser
    pub print_only: bool,
    /// Optional redirect target for OAuth connect URL generation
    pub redirect_to: Option<String>,
}

#[derive(Debug, Clone)]
pub struct ReposArgs {
    /// GitHub App installation ID
    pub installation_id: u64,
}

#[derive(Debug, Clone)]
pub struct ImportArgs {
    /// GitHub App installation ID
    pub installation_id: u64,
    /// GitHub repository ID
    pub repository_id: u64,
    /// Optional d1v project name override
    pub project_name: Option<String>,
    /// Optional d1v project description override
    pub project_description: Option<String>,
}

/// The account's GitHub App connection.
#[derive(Debug, Clone)]
pub struct GitHubAppStatus {
    pub configured: bool,
    pub connected: bool,
    pub token_valid: bool,
    pub github_login: Option<String>,
    pub github_name: Option<String>,
    pub app_slug: Option<String>,
    pub app_install_url: Option<String>,
}

/// Where `github bind` goes without asking the platform: the installation
/// page (or the settings) when installing or already connected with a
/// valid token; otherwise the OAuth connect URL must be asked for.
pub open spec fn bind_url_spec(install: bool, s: GitHubAppStatus) -> Option<Seq<char>> {
    if install || (s.connected && s.token_valid) {
        Some(
            match s.app_install_url {
                Some(u) => u@,
                None => DEFAULT_SETTINGS_URL@,
            },
        )
    } else {
        None
    }
}

pub fn bind_url(install: bool, status: &GitHubAppStatus) -> (r: Option<String>)
    ensures
        opt_str(r) == bind_url_spec(install, *status),
{
    if install || (status.connected && status.token_valid) {
        Some(
            match &status.app_install_url {
                Some(u) => u.clone(),
                None => DEFAULT_SETTINGS_URL.to_owned(),
            },
        )
    } else {
        None
    }
}

/// The connect URL the platform gave, or the settings page when asking
/// failed.
pub fn connect_url_or_settings(connect: Option<String>) -> (r: String)
    ensures
        r@ == match connect {
            Some(u) => u@,
            None => DEFAULT_SETTINGS_URL@,
        },
{
    match connect {
        Some(u) => u,
        None => DEFAULT_SETTINGS_URL.to_owned(),
    }
}

/// The status headline and its style, by whether GitHub is connected, its
/// token valid, and the app configured.
pub open spec fn status_headline(s: GitHubAppStatus) -> (Seq<char>, Style) {
    if s.connected && s.token_valid {
        ("GitHub connected"@, Style::plain().with_fg(AnsiColor::Green))
    } else if s.connected {
        ("GitHub connected, token invalid"@, Style::plain().with_fg(AnsiColor::Yellow))
    } else if s.configured {
        ("GitHub not connected"@, Style::plain().with_fg(AnsiColor::Yellow))
    } else {
        ("GitHub App not configured"@, Style::plain().with_fg(AnsiColor::Red))
    }
}

pub open spec fn status_fields(s: GitHubAppStatus) -> Seq<(Seq<char>, Seq<char>)> {
    seq![
        ("Configured"@, flag_text(Some(s.configured))),
        ("Connected"@, flag_text(Some(s.connected))),
        ("Token valid"@, flag_text(Some(s.token_valid))),
        ("GitHub login"@, or_dash(opt_str(s.github_login))),
        ("GitHub name"@, or_dash(opt_str(s.github_name))),
        ("App slug"@, or_dash(opt_str(s.app_slug))),
        ("Install URL"@, or_dash(opt_str(s.app_install_url))),
        ("Settings URL"@, DEFAULT_SETTINGS_URL@),
    ]
}

pub fn github_status_view(s: &GitHubAppStatus) -> (r: Section)
    ensures
        crate::view::lines_are(r.heading, seq![(status_headline(*s).0, Some(status_headline(*s).1))]),
        r.fields.indent == 2,
        styled_as_fields(r.fields.fields@),
        fields_text(r.fields.fields@) == status_fields(*s),
{
    let (title, style) = if s.connected && s.token_valid {
        ("GitHub connected", theme::success())
    } else if s.connected {
        ("GitHub connected, token invalid", theme::warning())
    } else if s.configured {
        ("GitHub not connected", theme::warning())
    } else {
        ("GitHub App not configured", theme::error())
    };
    let b = crate::view::LinesBuilder::new().styled(title.to_owned(), style);
    assert(b.expected@ =~= seq![(status_headline(*s).0, Some(status_headline(*s).1))]);
    let mut fs: Vec<Field> = Vec::new();
    fs.push(field_flag("Configured", Some(s.configured)));
    fs.push(field_flag("Connected", Some(s.connected)));
    fs.push(field_flag("Token valid", Some(s.token_valid)));
    fs.push(field_opt("GitHub login", &s.github_login));
    fs.push(field_opt("GitHub name", &s.github_name));
    fs.push(field_opt("App slug", &s.app_slug));
    fs.push(field_opt("Install URL", &s.app_install_url));
    fs.push(field("Settings URL", DEFAULT_SETTINGS_URL));
    let r = Section { heading: b.text, fields: Fields::new(fs).indent(2) };
    assert(fields_text(r.fields.fields@) =~= status_fields(*s));
    r
}

/// An installation of the GitHub App.
#[derive(Debug, Clone)]
pub struct GitHubAppInstallation {
    pub id: u64,
    pub account_login: Option<String>,
    pub target_type: Option<String>,
    pub repository_selection: Option<String>,
    pub html_url: Option<String>,
}

pub open spec fn installation_cells(i: GitHubAppInstallation) -> Seq<Seq<char>> {
    seq![
        dec(i.id as nat),
        or_dash(opt_str(i.account_login)),
        or_dash(opt_str(i.target_type)),
        or_dash(opt_str(i.repository_selection)),
        or_dash(opt_str(i.html_url)),
    ]
}

fn dash_or(o: &Option<String>) -> (r: String)
    ensures
        r@ == or_dash(opt_str(*o)),
{
    match o {
        Some(s) => s.clone(),
        None => "-".to_owned(),
    }
}

pub fn github_installations_view(items: &Vec<GitHubAppInstallation>) -> (r: Listing)
    ensures
        listing_ok(
            r,
            "No GitHub installations found."@,
            seq!["id"@, "account"@, "target_type"@, "repo_selection"@, "html_url"@],
            Seq::new(items@.len(), |i: int| installation_cells(items@[i])),
        ),
{
    let ghost cells = Seq::new(items@.len(), |i: int| installation_cells(items@[i]));
    let mut rows: Vec<TableRow> = Vec::new();
    let mut i: usize = 0;
    while i < items.len()
        invariant
            i <= items@.len(),
            cells == Seq::new(items@.len(), |i: int| installation_cells(items@[i])),
            rows@.len() == i,
            forall|j: int| 0 <= j < i ==> plain_row(#[trigger] rows@[j], cells[j]),
        decreases items@.len() - i,
    {
        let it = &items[i];
        let mut c: Vec<String> = Vec::new();
        c.push(crate::strs::dec_string(it.id));
        c.push(dash_or(&it.account_login));
        c.push(dash_or(&it.target_type));
        c.push(dash_or(&it.repository_selection));
        c.push(dash_or(&it.html_url));
        assert(string_texts(c@) =~= cells[i as int]);
        rows.push(row_of(c));
        i = i + 1;
    }
    let mut h: Vec<String> = Vec::new();
    h.push("id".to_owned());
    h.push("account".to_owned());
    h.push("target_type".to_owned());
    h.push("repo_selection".to_owned());
    h.push("html_url".to_owned());
    let ghost header = seq!["id"@, "account"@, "target_type"@, "repo_selection"@, "html_url"@];
    assert(string_texts(h@) =~= header);
    crate::view::listing("No GitHub installations found.", row_of(h), rows, Ghost(header), Ghost(cells))
}

/// A repository an installation can see.
#[derive(Debug, Clone)]
pub struct GitHubAppRepository {
    pub id: u64,
    pub full_name: String,
    pub default_branch: String,
    pub is_private: bool,
    pub language: Option<String>,
}

pub open spec fn repository_cells(r: GitHubAppRepository) -> Seq<Seq<char>> {
    seq![
        dec(r.id as nat),
        r.full_name@,
        r.default_branch@,
        if r.is_private { "private"@ } else { "public"@ },
        or_dash(opt_str(r.language)),
    ]
}

pub fn github_repositories_view(items: &Vec<GitHubAppRepository>) -> (r: Listing)
    ensures
        listing_ok(
            r,
            "No repositories found."@,
            seq!["id"@, "full_name"@, "default_branch"@, "visibility"@, "language"@],
            Seq::new(items@.len(), |i: int| repository_cells(items@[i])),
        ),
{
    let ghost cells = Seq::new(items@.len(), |i: int| repository_cells(items@[i]));
    let mut rows: Vec<TableRow> = Vec::new();
    let mut i: usize = 0;
    while i < items.len()
        invariant
            i <= items@.len(),
            cells == Seq::new(items@.len(), |i: int| repository_cells(items@[i])),
            rows@.len() == i,
            forall|j: int| 0 <= j < i ==> plain_row(#[trigger] rows@[j], cells[j]),
        decreases items@.len() - i,
    {
        let it = &items[i];
        let mut c: Vec<String> = Vec::new();
        c.push(crate::strs::dec_string(it.id));
        c.push(it.full_name.clone());
        c.push(it.default_branch.clone());
        c.push(if it.is_private { "private".to_owned() } else { "public".to_owned() });
        c.push(dash_or(&it.language));
        assert(string_texts(c@) =~= cells[i as int]);
        rows.push(row_of(c));
        i = i + 1;
    }
    let mut h: Vec<String> = Vec::new();
    h.push("id".to_owned());
    h.push("full_name".to_owned());
    h.push("default_branch".to_owned());
    h.push("visibility".to_owned());
    h.push("language".to_owned());
    let ghost header = seq!["id"@, "full_name"@, "default_branch"@, "visibility"@, "language"@];
    assert(string_texts(h@) =~= header);
    crate::view::listing("No repositories found.", row_of(h), rows, Ghost(header), Ghost(cells))
}

/// The project an import created.
#[derive(Debug, Clone)]
pub struct ImportedProject {
    pub id: String,
    pub project_name: String,
    pub project_description: String,
    pub repository_full_name: Option<String>,
    pub repository_current_branch: Option<String>,
    pub latest_preview_url: Option<String>,
    pub latest_prod_deployment_url: Option<String>,
    pub auto_deploy_on_execute: Option<bool>,
}

/// Whether an imported repository can be deployed at once.
#[derive(Debug, Clone)]
pub struct GitHubImportAutoDeploy {
    pub is_deployable: Option<bool>,
    pub framework: Option<String>,
    pub auto_deploy_queued: Option<bool>,
    pub reason: Option<String>,
    pub monorepo_candidates: Option<Vec<String>>,
}

pub open spec fn import_fields(p: ImportedProject) -> Seq<(Seq<char>, Seq<char>)> {
    seq![
        ("Description"@, p.project_description@),
        ("Repository"@, or_dash(opt_str(p.repository_full_name))),
        ("Repo branch"@, or_dash(opt_str(p.repository_current_branch))),
        ("Preview URL"@, or_dash(opt_str(p.latest_preview_url))),
        ("Prod URL"@, or_dash(opt_str(p.latest_prod_deployment_url))),
        ("Auto deploy"@, flag_text(p.auto_deploy_on_execute)),
    ]
}

/// The monorepo candidates joined by `, ` (`-` for none listed), or `-`
/// when the platform gave no list.
pub open spec fn candidates_text(c: Option<Vec<String>>) -> Seq<char> {
    match c {
        Some(items) => if items@.len() == 0 {
            "-"@
        } else {
            joined(string_texts(items@), ", "@)
        },
        None => "-"@,
    }
}

pub open spec fn auto_deploy_fields(a: GitHubImportAutoDeploy) -> Seq<(Seq<char>, Seq<char>)> {
    seq![
        ("Deployable"@, flag_text(a.is_deployable)),
        ("Framework"@, or_dash(opt_str(a.framework))),
        ("Auto deploy queued"@, flag_text(a.auto_deploy_queued)),
        ("Reason"@, or_dash(opt_str(a.reason))),
        ("Monorepo candidates"@, candidates_text(a.monorepo_candidates)),
    ]
}

/// An import: the project, then whether it deploys, after a blank line,
/// when the platform said.
pub struct GitHubImportView {
    pub project: Section,
    pub deployability: Option<Section>,
}

impl GitHubImportView {
    pub open spec fn chars(&self, color: bool) -> Seq<char> {
        self.project.chars(color) + match self.deployability {
            Some(s) => seq!['\n'] + s.chars(color),
            None => seq![],
        }
    }

    pub fn new(project: &ImportedProject, auto_deploy: &Option<GitHubImportAutoDeploy>) -> (r: Self)
        ensures
            heading_ok(
                r.project.heading,
                "Imported repository"@,
                Some(name_and_id(project.project_name@, project.id@)),
            ),
            r.project.fields.indent == 2,
            styled_as_fields(r.project.fields.fields@),
            fields_text(r.project.fields.fields@) == import_fields(*project),
            r.deployability is Some <==> auto_deploy is Some,
            auto_deploy matches Some(a) ==> {
                let d = r.deployability.unwrap();
                &&& heading_ok(d.heading, "Import deployability"@, None)
                &&& d.fields.indent == 2
                &&& styled_as_fields(d.fields.fields@)
                &&& fields_text(d.fields.fields@) == auto_deploy_fields(*a)
            },
    {
        let mut fs: Vec<Field> = Vec::new();
        fs.push(field("Description", project.project_description.as_str()));
        fs.push(field_opt("Repository", &project.repository_full_name));
        fs.push(field_opt("Repo branch", &project.repository_current_branch));
        fs.push(field_opt("Preview URL", &project.latest_preview_url));
        fs.push(field_opt("Prod URL", &project.latest_prod_deployment_url));
        fs.push(field_flag("Auto deploy", project.auto_deploy_on_execute));
        let p = Section {
            heading: heading(
                "Imported repository",
                Some(name_with_id(project.project_name.as_str(), project.id.as_str())),
            ),
            fields: Fields::new(fs).indent(2),
        };
        assert(fields_text(p.fields.fields@) =~= import_fields(*project));
        let d = match auto_deploy {
            Some(a) => {
                let candidates = match &a.monorepo_candidates {
                    Some(items) => if items.len() == 0 {
                        "-".to_owned()
                    } else {
                        join_strings(items, ", ")
                    },
                    None => "-".to_owned(),
                };
                let mut ds: Vec<Field> = Vec::new();
                ds.push(field_flag("Deployable", a.is_deployable));
                ds.push(field_opt("Framework", &a.framework));
                ds.push(field_flag("Auto deploy queued", a.auto_deploy_queued));
                ds.push(field_opt("Reason", &a.reason));
                ds.push(field("Monorepo candidates", candidates.as_str()));
                let sec = Section {
                    heading: heading("Import deployability", None),
                    fields: Fields::new(ds).indent(2),
                };
                assert(fields_text(sec.fields.fields@) =~= auto_deploy_fields(*a));
                Some(sec)
            },
            None => None,
        };
        GitHubImportView { project: p, deployability: d }
    }
}

impl Render for GitHubImportView {
    open spec fn fails(&self) -> bool {
        false
    }

    open spec fn rendered(&self, color: bool) -> Seq<u8> {
        encode_utf8(self.chars(color))
    }

    fn render(&self, ctx: &mut RenderContext) -> (r: Result<(), RenderError>) {
        let mut c = self.project.heading.to_chars(ctx.color);
        let f = self.project.fields.to_chars(ctx.color);
        crate::strs::push_all(&mut c, f.as_slice());
        match &self.deployability {
            Some(s) => {
                c.push('\n');
                let h = s.heading.to_chars(ctx.color);
                crate::strs::push_all(&mut c, h.as_slice());
                let g = s.fields.to_chars(ctx.color);
                crate::strs::push_all(&mut c, g.as_slice());
            },
            None => {},
        }
        assert(c@ =~= self.chars(ctx.color));
        ctx.write_chars(c.as_slice());
        Ok(())
    }
}

} // verus!
