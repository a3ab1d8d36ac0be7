//! Installing the d1v skill for coding agents: which agents get it, where
//! it goes, whether a download is a skill, and what the install reports.
//! Downloading and writing files is the caller's part.
use crate::strs::{
    chars_of, contains_seq, contains_str, has_prefix, has_suffix, dec, push_dec, push_str,
    starts_with_str, string_of, trim_start, trim_start_ws,
};
use vstd::prelude::*;

verus! {

pub const DEFAULT_SKILL_URL: &'static str =
    "https://raw.githubusercontent.com/d1vai/d1v-cli/main/skills/d1v/SKILL.md";

/// `d1v skill` subcommands.
#[derive(Debug)]
pub enum SkillCommand {
    /// Install or update the d1v skill
    Install(InstallSkillArgs),
}

/// Which coding agents to configure.
#[derive(Debug, Clone, Copy, PartialEq, Eq, Structural)]
pub enum AgentTarget {
    /// Install only for coding agents available on PATH
    Auto,
    Codex,
    Claude,
    All,
}

/// Arguments of `d1v skill install`.
#[derive(Debug)]
pub struct InstallSkillArgs {
    /// Coding agent to configure (auto detects the agents found on PATH)
    pub agent: AgentTarget,
    /// Override the skill source URL
    pub url: String,
}

/// A refused skill file.
#[derive(Debug, Clone, PartialEq, Eq)]
pub enum SkillError {
    InvalidSkill,
}

impl SkillError {
    pub fn message(&self) -> (r: &'static str)
        ensures
            r@ == "downloaded file is not a valid d1v SKILL.md"@,
    {
        "downloaded file is not a valid d1v SKILL.md"
    }
}

/// A skill file: after leading whitespace, front matter that opens with
/// `---`, names the skill `d1v` and has a description.
pub open spec fn valid_skill(contents: Seq<char>) -> bool {
    let t = trim_start_ws(contents);
    has_prefix(t, "---\n"@) && contains_seq(t, "\nname: d1v\n"@) && contains_seq(
        t,
        "\ndescription:"@,
    )
}

/// Accepts a downloaded file only when it is a d1v skill.
pub fn validate_skill(contents: &str) -> (r: Result<(), SkillError>)
    ensures
        r is Ok <==> valid_skill(contents@),
{
    let t = trim_start(chars_of(contents).as_slice());
    if !starts_with_str(t.as_slice(), "---\n") || !contains_str(t.as_slice(), "\nname: d1v\n")
        || !contains_str(t.as_slice(), "\ndescription:") {
        return Err(SkillError::InvalidSkill);
    }
    Ok(())
}

/// `Path::join` of a relative path onto a directory.
pub open spec fn path_join(dir: Seq<char>, rel: Seq<char>) -> Seq<char> {
    if dir.len() == 0 {
        rel
    } else if dir.last() == '/' {
        dir + rel
    } else {
        dir + seq!['/'] + rel
    }
}

pub fn join_path(dir: &str, rel: &str) -> (r: String)
    ensures
        r@ == path_join(dir@, rel@),
{
    let mut v = chars_of(dir);
    if v.len() > 0 && v[v.len() - 1] != '/' {
        v.push('/');
    }
    push_str(&mut v, rel);
    string_of(v.as_slice())
}

/// A coding agent the skill is installed for.
#[derive(Debug, Clone, Copy, PartialEq, Eq, Structural)]
pub enum Agent {
    Codex,
    Claude,
}

/// Where a skill goes for one agent.
#[derive(Debug, Clone)]
pub struct Destination {
    pub agent: Agent,
    pub path: String,
}

pub open spec fn wants_codex(target: AgentTarget, codex_on_path: bool) -> bool {
    target == AgentTarget::Codex || target == AgentTarget::All || (target == AgentTarget::Auto
        && codex_on_path)
}

pub open spec fn wants_claude(target: AgentTarget, claude_on_path: bool) -> bool {
    target == AgentTarget::Claude || target == AgentTarget::All || (target == AgentTarget::Auto
        && claude_on_path)
}

/// The agents to configure and their skill files, in the order of
/// [`Agent`], each when asked for or, for `auto`, when found on `PATH`.
pub fn resolve_destinations_with_roots(
    target: AgentTarget,
    codex_on_path: bool,
    claude_on_path: bool,
    codex_root: &str,
    claude_root: &str,
) -> (r: Vec<Destination>)
    ensures
        r@.len() == (if wants_codex(target, codex_on_path) { 1int } else { 0int }) + (if wants_claude(
            target,
            claude_on_path,
        ) {
            1int
        } else {
            0int
        }),
        wants_codex(target, codex_on_path) ==> r@[0].agent == Agent::Codex && r@[0].path@ == path_join(
            codex_root@,
            "skills/d1v/SKILL.md"@,
        ),
        wants_claude(target, claude_on_path) ==> r@.last().agent == Agent::Claude
            && r@.last().path@ == path_join(claude_root@, "skills/d1v/SKILL.md"@),
{
    let codex = match target {
        AgentTarget::Codex | AgentTarget::All => true,
        AgentTarget::Auto => codex_on_path,
        AgentTarget::Claude => false,
    };
    let claude = match target {
        AgentTarget::Claude | AgentTarget::All => true,
        AgentTarget::Auto => claude_on_path,
        AgentTarget::Codex => false,
    };
    let mut out: Vec<Destination> = Vec::new();
    if codex {
        out.push(Destination { agent: Agent::Codex, path: join_path(codex_root, "skills/d1v/SKILL.md") });
    }
    if claude {
        out.push(
            Destination {
                agent: Agent::Claude,
                path: join_path(claude_root, "skills/d1v/SKILL.md"),
            },
        );
    }
    out
}

/// Whether permission bits make a file executable by anyone.
pub fn is_executable(mode: u32) -> (r: bool)
    ensures
        r == (mode & 0o111u32 != 0),
{
    mode & 0o111 != 0
}

/// How writing one skill file went.
#[derive(Debug, Clone, PartialEq, Eq)]
pub enum WriteOutcome {
    Installed,
    Unchanged,
    /// Replaced; the previous file was moved to this backup.
    Updated(String),
}

impl WriteOutcome {
    pub fn status(&self) -> (r: &'static str)
        ensures
            r@ == (match self {
                WriteOutcome::Installed => "installed"@,
                WriteOutcome::Unchanged => "unchanged"@,
                WriteOutcome::Updated(_) => "updated"@,
            }),
    {
        match self {
            WriteOutcome::Installed => "installed",
            WriteOutcome::Unchanged => "unchanged",
            WriteOutcome::Updated(_) => "updated",
        }
    }

    pub fn backup_path(&self) -> (r: Option<String>)
        ensures
            match self {
                WriteOutcome::Updated(p) => r matches Some(q) && q@ == p@,
                _ => r is None,
            },
    {
        match self {
            WriteOutcome::Updated(p) => Some(p.clone()),
            _ => None,
        }
    }
}

/// The name of the backup of a replaced skill: the timestamp, and a counter
/// after the first attempt.
pub open spec fn backup_name(timestamp: Seq<char>, suffix: u32) -> Seq<char> {
    if suffix == 0 {
        "SKILL.md.d1v-backup-"@ + timestamp
    } else {
        "SKILL.md.d1v-backup-"@ + timestamp + seq!['-'] + dec(suffix as nat)
    }
}

pub fn backup_file_name(timestamp: &str, suffix: u32) -> (r: String)
    ensures
        r@ == backup_name(timestamp@, suffix),
{
    let mut v: Vec<char> = Vec::new();
    push_str(&mut v, "SKILL.md.d1v-backup-");
    push_str(&mut v, timestamp);
    if suffix != 0 {
        v.push('-');
        push_dec(&mut v, suffix as u64);
    }
    string_of(v.as_slice())
}

/// The name of the temporary file a new skill is first written to.
pub fn temporary_file_name(process_id: u32, attempt: u32) -> (r: String)
    ensures
        r@ == ".SKILL.md.d1v-tmp-"@ + dec(process_id as nat) + seq!['-'] + dec(attempt as nat),
{
    let mut v: Vec<char> = Vec::new();
    push_str(&mut v, ".SKILL.md.d1v-tmp-");
    push_dec(&mut v, process_id as u64);
    v.push('-');
    push_dec(&mut v, attempt as u64);
    string_of(v.as_slice())
}

/// One agent's result of an install.
#[derive(Debug, Clone)]
pub struct InstallResult {
    pub agent: &'static str,
    pub status: &'static str,
    pub path: Option<String>,
    pub backup_path: Option<String>,
    pub message: Option<&'static str>,
}

/// The line the install reports for one result, or `None` for a result
/// with neither a path nor a message.
pub open spec fn summary_line_text(r: InstallResult) -> Option<Seq<char>> {
    match (r.path, r.backup_path, r.message) {
        (_, _, Some(m)) => Some("d1v skill skipped: "@ + m@),
        (Some(p), Some(b), None) => Some("updated d1v skill for "@ + r.agent@ + ": "@ + p@
            + " (previous version backed up to "@ + b@ + ")"@),
        (Some(p), None, None) => Some(r.status@ + " d1v skill for "@ + r.agent@ + ": "@ + p@),
        (None, _, None) => None,
    }
}

pub fn summary_line(r: &InstallResult) -> (out: Option<String>)
    ensures
        match out {
            Some(s) => summary_line_text(*r) == Some(s@),
            None => summary_line_text(*r) is None,
        },
{
    let mut v: Vec<char> = Vec::new();
    match r.message {
        Some(m) => {
            push_str(&mut v, "d1v skill skipped: ");
            push_str(&mut v, m);
        },
        None => match &r.path {
            None => {
                return None;
            },
            Some(p) => match &r.backup_path {
                Some(b) => {
                    push_str(&mut v, "updated d1v skill for ");
                    push_str(&mut v, r.agent);
                    push_str(&mut v, ": ");
                    push_str(&mut v, p.as_str());
                    push_str(&mut v, " (previous version backed up to ");
                    push_str(&mut v, b.as_str());
                    push_str(&mut v, ")");
                },
                None => {
                    push_str(&mut v, r.status);
                    push_str(&mut v, " d1v skill for ");
                    push_str(&mut v, r.agent);
                    push_str(&mut v, ": ");
                    push_str(&mut v, p.as_str());
                },
            },
        },
    }
    Some(string_of(v.as_slice()))
}

} // verus!
