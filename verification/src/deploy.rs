//! Deployments: waiting for a preview, the production release with its
//! environment decisions, and the deployment views. Talking to the
//! platform, prompting and sleeping are the caller's part.
use crate::strs::{chars_of, contains, contains_seq, push_dec, push_str, seq_eq, string_of};
use crate::text::fields::{Field, Fields};
use crate::text::line::Line;
use crate::text::style::Style;
use crate::text::table::{Table, TableRow};
use crate::text::text::Text;
use crate::theme;
use crate::view::{
    field, field_opt, fields_text, heading, heading_ok, opt_str, or_dash, styled_as_fields, Listing,
    Section,
};
use vstd::prelude::*;

verus! {

/// `d1v deploy` subcommands.
#[derive(Debug)]
pub enum DeployCommand {
    /// Trigger a preview deployment
    Preview(ProjectDeployArgs),
    /// Trigger a production deployment
    Prod(ProjectDeployArgs),
    /// Show current deployment status summary
    Status(StatusArgs),
    /// Show deployment history
    History(HistoryArgs),
    /// Show build logs for a Vercel deployment ID
    Logs(LogsArgs),
}

#[derive(Debug, Clone)]
pub struct ProjectDeployArgs {
    pub project_id: String,
}

#[derive(Debug, Clone)]
pub struct StatusArgs {
    pub project_id: String,
}

#[derive(Debug, Clone)]
pub struct HistoryArgs {
    pub project_id: String,
    pub environment: Option<String>,
    /// How many deployments to list (20 unless given).
    pub limit: u32,
}

#[derive(Debug, Clone)]
pub struct LogsArgs {
    pub vercel_deployment_id: String,
}

/// What the platform says of a deployment request.
#[derive(Debug, Clone, PartialEq, Eq)]
pub struct DeploymentResponse {
    pub success: bool,
    pub message: String,
    pub commit_hash: Option<String>,
    pub production_url: Option<String>,
    pub vercel_url: Option<String>,
    pub deployment_id: Option<String>,
}

/// `char::to_ascii_uppercase`.
pub open spec fn upper(c: char) -> char {
    if 'a' <= c && c <= 'z' {
        ((c as u32) - 32) as char
    } else {
        c
    }
}

pub open spec fn upper_seq(s: Seq<char>) -> Seq<char> {
    Seq::new(s.len(), |i: int| upper(s[i]))
}

fn to_upper(s: &str) -> (r: Vec<char>)
    ensures
        r@ == upper_seq(s@),
{
    let c = chars_of(s);
    let mut v: Vec<char> = Vec::new();
    let mut i: usize = 0;
    while i < c.len()
        invariant
            i <= c@.len(),
            c@ == s@,
            v@ == upper_seq(s@).take(i as int),
        decreases c@.len() - i,
    {
        let ch = c[i];
        let u = if 'a' <= ch && ch <= 'z' {
            crate::strs::char_from_ascii_u32((ch as u32) - 32)
        } else {
            ch
        };
        v.push(u);
        assert(v@ =~= upper_seq(s@).take(i + 1));
        i = i + 1;
    }
    assert(v@ =~= upper_seq(s@));
    v
}

/// Where a preview deployment stands, by its status message in upper case.
#[derive(Debug, Clone, Copy, PartialEq, Eq)]
pub enum PreviewPhase {
    Ready,
    Failed,
    Pending,
}

/// Ready when the message says `READY` but not `NOT_READY`; failed when it
/// says `ERROR`, `FAILED` or `CANCELED`; pending otherwise.
pub open spec fn preview_phase_of(message: Seq<char>) -> PreviewPhase {
    let m = upper_seq(message);
    if contains_seq(m, "READY"@) && !contains_seq(m, "NOT_READY"@) {
        PreviewPhase::Ready
    } else if contains_seq(m, "ERROR"@) || contains_seq(m, "FAILED"@) || contains_seq(
        m,
        "CANCELED"@,
    ) {
        PreviewPhase::Failed
    } else {
        PreviewPhase::Pending
    }
}

/// Whether a preview status message (upper-cased) reports readiness.
pub open spec fn reports_ready(m: Seq<char>) -> bool {
    contains_seq(m, "READY"@) && !contains_seq(m, "NOT_READY"@)
}

/// Whether a preview status message (upper-cased) reports a failure.
pub open spec fn reports_failure(m: Seq<char>) -> bool {
    contains_seq(m, "FAILED"@) || contains_seq(m, "ERROR"@) || contains_seq(m, "CANCELED"@)
}

/// Preview law: whatever its case, a message that reports readiness is a
/// ready preview; one that does not but names `FAILED`, `ERROR` or
/// `CANCELED` is a failed preview, never a pending one; only a message
/// that reports neither leaves the preview pending.
pub proof fn lemma_preview_phase_words(message: Seq<char>)
    ensures
        reports_ready(upper_seq(message)) ==> preview_phase_of(message) == PreviewPhase::Ready,
        !reports_ready(upper_seq(message)) && reports_failure(upper_seq(message))
            ==> preview_phase_of(message) == PreviewPhase::Failed,
        preview_phase_of(message) == PreviewPhase::Pending <==> !reports_ready(upper_seq(message))
            && !reports_failure(upper_seq(message)),
{
}

pub fn preview_phase(message: &str) -> (r: PreviewPhase)
    ensures
        r == preview_phase_of(message@),
{
    let m = to_upper(message);
    let ready = contains(m.as_slice(), chars_of("READY").as_slice());
    let not_ready = contains(m.as_slice(), chars_of("NOT_READY").as_slice());
    if ready && !not_ready {
        PreviewPhase::Ready
    } else if contains(m.as_slice(), chars_of("ERROR").as_slice()) || contains(
        m.as_slice(),
        chars_of("FAILED").as_slice(),
    ) || contains(m.as_slice(), chars_of("CANCELED").as_slice()) {
        PreviewPhase::Failed
    } else {
        PreviewPhase::Pending
    }
}

/// Status checks of a preview before giving up (two seconds apart: ten
/// minutes).
pub const PREVIEW_POLLS: u32 = 300;

/// What to do after a status check.
#[derive(Debug, Clone, PartialEq, Eq)]
pub enum PollOutcome<T> {
    Done(T),
    Failed(String),
    /// Wait this many milliseconds and check again.
    Wait(u64),
    /// Wait as for another check, then give up with this message.
    TimedOut(String),
}

pub open spec fn first_some(a: Option<String>, b: Option<String>) -> Option<String> {
    match a {
        Some(x) => Some(x),
        None => b,
    }
}

/// The ready preview as reported: the status, with the first URL known
/// (the status's production then Vercel URL, then those of the request),
/// and the deployment id of the status or else of the request.
pub open spec fn ready_preview(started: DeploymentResponse, status: DeploymentResponse) -> DeploymentResponse {
    DeploymentResponse {
        production_url: first_some(
            status.production_url,
            first_some(
                status.vercel_url,
                first_some(started.production_url, started.vercel_url),
            ),
        ),
        deployment_id: first_some(status.deployment_id, started.deployment_id),
        ..status
    }
}

/// Waiting for a preview deployment.
#[derive(Debug, Clone)]
pub struct PreviewWait {
    pub started: DeploymentResponse,
    pub polls: u32,
}

pub open spec fn preview_failure(message: Seq<char>) -> Seq<char> {
    "preview deployment failed: "@ + message
}

pub open spec fn preview_timeout(deployment_id: Option<Seq<char>>) -> Seq<char> {
    "preview deployment timed out after 10 minutes (deployment ID: "@ + or_unknown(deployment_id)
        + ")"@
}

pub open spec fn or_unknown(o: Option<Seq<char>>) -> Seq<char> {
    match o {
        Some(s) => s,
        None => "unknown"@,
    }
}

fn opt_clone(o: &Option<String>) -> (r: Option<String>)
    ensures
        opt_str(r) == opt_str(*o),
{
    match o {
        Some(s) => Some(s.clone()),
        None => None,
    }
}

impl PreviewWait {
    /// Starts waiting on the deployment the preview request started.
    pub fn new(started: DeploymentResponse) -> (r: Self)
        ensures
            r.started == started,
            r.polls == 0,
    {
        PreviewWait { started, polls: 0 }
    }

    /// Takes one status check.
    pub fn observe(&mut self, status: DeploymentResponse) -> (r: PollOutcome<DeploymentResponse>)
        requires
            old(self).polls < PREVIEW_POLLS,
        ensures
            final(self).started == old(self).started,
            final(self).polls == old(self).polls + 1,
            match preview_phase_of(status.message@) {
                PreviewPhase::Ready => r matches PollOutcome::Done(d) && d.success == status.success
                    && d.message@ == status.message@ && opt_str(d.commit_hash) == opt_str(
                    status.commit_hash,
                ) && opt_str(d.vercel_url) == opt_str(status.vercel_url) && opt_str(
                    d.production_url,
                ) == opt_str(ready_preview(old(self).started, status).production_url) && opt_str(
                    d.deployment_id,
                ) == opt_str(ready_preview(old(self).started, status).deployment_id),
                PreviewPhase::Failed => r matches PollOutcome::Failed(m) && m@ == preview_failure(
                    status.message@,
                ),
                PreviewPhase::Pending => if old(self).polls + 1 < PREVIEW_POLLS {
                    r == PollOutcome::<DeploymentResponse>::Wait(2000)
                } else {
                    r matches PollOutcome::TimedOut(m) && m@ == preview_timeout(
                        opt_str(old(self).started.deployment_id),
                    )
                },
            },
    {
        self.polls = self.polls + 1;
        match preview_phase(status.message.as_str()) {
            PreviewPhase::Ready => {
                let url = match &status.production_url {
                    Some(u) => Some(u.clone()),
                    None => match &status.vercel_url {
                        Some(u) => Some(u.clone()),
                        None => match &self.started.production_url {
                            Some(u) => Some(u.clone()),
                            None => opt_clone(&self.started.vercel_url),
                        },
                    },
                };
                let id = match &status.deployment_id {
                    Some(d) => Some(d.clone()),
                    None => opt_clone(&self.started.deployment_id),
                };
                PollOutcome::Done(
                    DeploymentResponse { production_url: url, deployment_id: id, ..status },
                )
            },
            PreviewPhase::Failed => {
                let mut v: Vec<char> = Vec::new();
                push_str(&mut v, "preview deployment failed: ");
                push_str(&mut v, status.message.as_str());
                PollOutcome::Failed(string_of(v.as_slice()))
            },
            PreviewPhase::Pending => {
                if self.polls < PREVIEW_POLLS {
                    PollOutcome::Wait(2000)
                } else {
                    let mut v: Vec<char> = Vec::new();
                    push_str(&mut v, "preview deployment timed out after 10 minutes (deployment ID: ");
                    match &self.started.deployment_id {
                        Some(d) => push_str(&mut v, d.as_str()),
                        None => push_str(&mut v, "unknown"),
                    }
                    push_str(&mut v, ")");
                    PollOutcome::TimedOut(string_of(v.as_slice()))
                }
            },
        }
    }
}

} // verus!

verus! {

/// An environment variable as the release preflight reports it.
#[derive(Debug, Clone)]
pub struct ReleaseVariable {
    pub key: String,
    pub needs_value: Option<bool>,
    pub has_development_value: Option<bool>,
    pub has_production_value: Option<bool>,
}

/// A variable needs a decision when the platform says it needs a value, or
/// when it has a development value but no production one.
pub open spec fn needs_decision_spec(v: ReleaseVariable) -> bool {
    v.needs_value == Some(true) || (v.has_development_value == Some(true)
        && v.has_production_value != Some(true))
}

pub fn needs_decision(v: &ReleaseVariable) -> (r: bool)
    ensures
        r == needs_decision_spec(*v),
{
    let needs = match v.needs_value {
        Some(b) => b,
        None => false,
    };
    let dev = match v.has_development_value {
        Some(b) => b,
        None => false,
    };
    let prod = match v.has_production_value {
        Some(b) => b,
        None => false,
    };
    needs || (dev && !prod)
}

/// What the user chose for a variable.
#[derive(Debug, Clone, Copy, PartialEq, Eq)]
pub enum ReleaseChoice {
    /// Reuse development value
    Development,
    /// Use existing production value
    Production,
    /// Do not copy
    Skip,
}

/// A decision sent with the release.
#[derive(Debug, Clone, PartialEq, Eq)]
pub struct ReleaseEnvironmentDecision {
    pub key: String,
    pub action: String,
    pub value: Option<String>,
}

pub open spec fn choice_action(c: ReleaseChoice) -> Seq<char> {
    match c {
        ReleaseChoice::Development => "reuse_dev"@,
        ReleaseChoice::Production => "use_prod_existing"@,
        ReleaseChoice::Skip => "omit"@,
    }
}

/// The decision recorded for a variable and a choice.
pub fn decision_for(key: &str, choice: ReleaseChoice) -> (r: ReleaseEnvironmentDecision)
    ensures
        r.key@ == key@,
        r.action@ == choice_action(choice),
        r.value is None,
{
    let action = match choice {
        ReleaseChoice::Development => "reuse_dev".to_owned(),
        ReleaseChoice::Production => "use_prod_existing".to_owned(),
        ReleaseChoice::Skip => "omit".to_owned(),
    };
    ReleaseEnvironmentDecision { key: key.to_owned(), action, value: None }
}

/// The variables, in order, that the user is asked about.
pub open spec fn asked_keys(vs: Seq<ReleaseVariable>) -> Seq<Seq<char>>
    decreases vs.len(),
{
    if vs.len() == 0 {
        seq![]
    } else {
        let rest = asked_keys(vs.drop_last());
        if needs_decision_spec(vs.last()) {
            rest.push(vs.last().key@)
        } else {
            rest
        }
    }
}

pub fn keys_to_decide(vs: &Vec<ReleaseVariable>) -> (r: Vec<String>)
    ensures
        r@.len() == asked_keys(vs@).len(),
        forall|i: int| 0 <= i < r@.len() ==> #[trigger] r@[i]@ == asked_keys(vs@)[i],
{
    let mut out: Vec<String> = Vec::new();
    let mut i: usize = 0;
    while i < vs.len()
        invariant
            i <= vs@.len(),
            out@.len() == asked_keys(vs@.take(i as int)).len(),
            forall|j: int| 0 <= j < out@.len() ==> #[trigger] out@[j]@ == asked_keys(vs@.take(i as int))[j],
        decreases vs@.len() - i,
    {
        assert(vs@.take(i + 1).drop_last() =~= vs@.take(i as int));
        if needs_decision(&vs[i]) {
            out.push(vs[i].key.clone());
        }
        i = i + 1;
    }
    assert(vs@.take(vs@.len() as int) =~= vs@);
    out
}

/// The preflight line: whether this is the first release, how many
/// variables there are, and the release mode.
pub open spec fn preflight_text(first_release: Option<bool>, env_vars: nat, mode: Option<Seq<char>>) -> Seq<
    char,
> {
    "Release preflight: first_release="@ + (if first_release == Some(true) {
        "true"@
    } else {
        "false"@
    }) + " env_vars="@ + crate::strs::dec(env_vars) + " "@ + match mode {
        Some(m) => m,
        None => seq![],
    }
}

pub fn preflight_summary(first_release: Option<bool>, env_vars: usize, mode: &Option<String>) -> (r:
    String)
    ensures
        r@ == preflight_text(first_release, env_vars as nat, opt_str(*mode)),
{
    let mut v: Vec<char> = Vec::new();
    push_str(&mut v, "Release preflight: first_release=");
    let first = match first_release {
        Some(b) => b,
        None => false,
    };
    if first {
        push_str(&mut v, "true");
    } else {
        push_str(&mut v, "false");
    }
    push_str(&mut v, " env_vars=");
    push_dec(&mut v, env_vars as u64);
    push_str(&mut v, " ");
    match mode {
        Some(m) => push_str(&mut v, m.as_str()),
        None => {},
    }
    assert(v@ =~= preflight_text(first_release, env_vars as nat, opt_str(*mode)));
    string_of(v.as_slice())
}

/// The question asked before a production release.
pub fn confirm_prompt(project_id: &str) -> (r: String)
    ensures
        r@ == "Confirm production release for "@ + project_id@ + "?"@,
{
    let mut v: Vec<char> = Vec::new();
    push_str(&mut v, "Confirm production release for ");
    push_str(&mut v, project_id);
    push_str(&mut v, "?");
    string_of(v.as_slice())
}

/// The key that makes a release request safe to repeat: the process id
/// and the time it was made.
pub fn idempotency_key(process_id: u32, timestamp: &str) -> (r: String)
    ensures
        r@ == "d1v-"@ + crate::strs::dec(process_id as nat) + "-"@ + timestamp@,
{
    let mut v: Vec<char> = Vec::new();
    push_str(&mut v, "d1v-");
    push_dec(&mut v, process_id as u64);
    push_str(&mut v, "-");
    push_str(&mut v, timestamp);
    string_of(v.as_slice())
}

/// The production release request: never copies development data, always
/// confirms reuse of managed resources.
#[derive(Debug, Clone)]
pub struct CreateReleaseRequest {
    pub idempotency_key: String,
    pub expected_dev_commit_sha: Option<String>,
    pub confirm_managed_reuse: bool,
    pub copy_development_data: bool,
    pub environment_decisions: Vec<ReleaseEnvironmentDecision>,
}

pub fn release_request(idempotency_key: String, decisions: Vec<ReleaseEnvironmentDecision>) -> (r:
    CreateReleaseRequest)
    ensures
        r.idempotency_key == idempotency_key,
        r.expected_dev_commit_sha is None,
        r.confirm_managed_reuse,
        !r.copy_development_data,
        r.environment_decisions@ == decisions@,
{
    CreateReleaseRequest {
        idempotency_key,
        expected_dev_commit_sha: None,
        confirm_managed_reuse: true,
        copy_development_data: false,
        environment_decisions: decisions,
    }
}

/// Why a production release does not go ahead before it is created.
#[derive(Debug, Clone, PartialEq, Eq)]
pub enum ReleaseRefusal {
    NotInteractive,
    Canceled,
    MissingId,
}

impl ReleaseRefusal {
    pub fn message(&self) -> (r: String)
        ensures
            *self is NotInteractive ==> r@
                == "production release requires an interactive TTY; rerun d1v deploy prod in a terminal"@,
            *self is Canceled ==> r@ == "production release canceled"@,
            *self is MissingId ==> r@ == "release response did not include an id"@,
    {
        match self {
            ReleaseRefusal::NotInteractive => "production release requires an interactive TTY; rerun d1v deploy prod in a terminal".to_owned(),
            ReleaseRefusal::Canceled => "production release canceled".to_owned(),
            ReleaseRefusal::MissingId => "release response did not include an id".to_owned(),
        }
    }
}

/// A production release as the platform reports it.
#[derive(Debug, Clone, PartialEq, Eq)]
pub struct ProductionRelease {
    pub id: Option<String>,
    pub status: String,
    pub phase: Option<String>,
    pub error_code: Option<String>,
    pub error_message: Option<String>,
    pub production_url: Option<String>,
    pub deployment_id: Option<String>,
}

/// Where a release stands, by its status in lower case.
#[derive(Debug, Clone, Copy, PartialEq, Eq)]
pub enum ReleasePhase {
    Succeeded,
    Failed,
    Pending,
}

pub open spec fn release_phase_of(status: Seq<char>) -> ReleasePhase {
    let s = crate::strs::lower_seq(status);
    if s == "succeeded"@ || s == "success"@ || s == "ready"@ {
        ReleasePhase::Succeeded
    } else if s == "failed"@ || s == "error"@ || s == "canceled"@ || s == "cancelled"@ {
        ReleasePhase::Failed
    } else {
        ReleasePhase::Pending
    }
}

/// Release law: a status that lower-cases to `succeeded`, `success` or
/// `ready` is a finished release; one that lower-cases to `failed`,
/// `error`, `canceled` or `cancelled` is a failed one; any other status
/// keeps the release pending.
pub proof fn lemma_release_phase_words(status: Seq<char>)
    ensures
        ({
            let s = crate::strs::lower_seq(status);
            &&& (s == "succeeded"@ || s == "success"@ || s == "ready"@) ==> release_phase_of(status)
                == ReleasePhase::Succeeded
            &&& (s == "failed"@ || s == "error"@ || s == "canceled"@ || s == "cancelled"@)
                ==> release_phase_of(status) == ReleasePhase::Failed
            &&& release_phase_of(status) == ReleasePhase::Pending <==> !(s == "succeeded"@ || s
                == "success"@ || s == "ready"@ || s == "failed"@ || s == "error"@ || s
                == "canceled"@ || s == "cancelled"@)
        }),
{
    reveal_strlit("succeeded");
    reveal_strlit("success");
    reveal_strlit("ready");
    reveal_strlit("failed");
    reveal_strlit("error");
    reveal_strlit("canceled");
    reveal_strlit("cancelled");
    let s = crate::strs::lower_seq(status);
    let succ = s == "succeeded"@ || s == "success"@ || s == "ready"@;
    let fail = s == "failed"@ || s == "error"@ || s == "canceled"@ || s == "cancelled"@;
    if fail {
        let words = seq!["succeeded"@, "success"@, "ready"@];
        let bad = seq!["failed"@, "error"@, "canceled"@, "cancelled"@];
        assert forall|i: int, j: int| 0 <= i < 3 && 0 <= j < 4 implies words[i] != bad[j] by {
            assert(words[i][0] != bad[j][0] || words[i].len() != bad[j].len() || words[i][1]
                != bad[j][1]);
        }
        assert(s != words[0] && s != words[1] && s != words[2]) by {
            if s == "failed"@ {
                assert(bad[0] == s);
            } else if s == "error"@ {
                assert(bad[1] == s);
            } else if s == "canceled"@ {
                assert(bad[2] == s);
            } else {
                assert(bad[3] == s);
            }
        }
        assert(!succ);
        assert(release_phase_of(status) == ReleasePhase::Failed);
    }
    if succ {
        assert(release_phase_of(status) == ReleasePhase::Succeeded);
    }
}

fn is_one_of(s: &[char], a: &str, b: &str, c: &str, d: &str) -> (r: bool)
    ensures
        r == (s@ == a@ || s@ == b@ || s@ == c@ || s@ == d@),
{
    seq_eq(s, chars_of(a).as_slice()) || seq_eq(s, chars_of(b).as_slice()) || seq_eq(
        s,
        chars_of(c).as_slice(),
    ) || seq_eq(s, chars_of(d).as_slice())
}

pub fn release_phase(status: &str) -> (r: ReleasePhase)
    ensures
        r == release_phase_of(status@),
{
    let s = crate::strs::to_lower(chars_of(status).as_slice());
    if is_one_of(s.as_slice(), "succeeded", "success", "ready", "ready") {
        ReleasePhase::Succeeded
    } else if is_one_of(s.as_slice(), "failed", "error", "canceled", "cancelled") {
        ReleasePhase::Failed
    } else {
        ReleasePhase::Pending
    }
}

pub open spec fn or_text(o: Option<Seq<char>>, d: Seq<char>) -> Seq<char> {
    match o {
        Some(s) => s,
        None => d,
    }
}

pub open spec fn release_failure(r: ProductionRelease) -> Seq<char> {
    "production release failed (phase="@ + or_text(opt_str(r.phase), "-"@) + ", code="@ + or_text(
        opt_str(r.error_code),
        "-"@,
    ) + "): "@ + or_text(opt_str(r.error_message), "unknown error"@)
}

pub open spec fn release_timeout(id: Seq<char>) -> Seq<char> {
    "production release timed out after 10 minutes (release ID: "@ + id + ")"@
}

fn push_or(v: &mut Vec<char>, o: &Option<String>, d: &str)
    ensures
        final(v)@ == old(v)@ + or_text(opt_str(*o), d@),
{
    match o {
        Some(s) => push_str(v, s.as_str()),
        None => push_str(v, d),
    }
}

/// Status checks of a release before giving up (two seconds apart: ten
/// minutes). A check that fails on the network or by timing out counts,
/// and is followed by another.
pub const RELEASE_POLLS: u32 = 300;

/// One status check of a release.
#[derive(Debug, Clone)]
pub enum ReleaseCheck {
    Status(ProductionRelease),
    /// The check timed out or could not reach the platform.
    Unreachable,
}

/// Waiting for a production release.
#[derive(Debug, Clone)]
pub struct ReleaseWait {
    pub release_id: String,
    pub polls: u32,
}

impl ReleaseWait {
    pub fn new(release_id: String) -> (r: Self)
        ensures
            r.release_id == release_id,
            r.polls == 0,
    {
        ReleaseWait { release_id, polls: 0 }
    }

    /// Takes one status check: success ends the wait with the release, a
    /// failed status with its message, anything else waits two seconds;
    /// after the last check the wait gives up.
    pub fn observe(&mut self, check: ReleaseCheck) -> (r: PollOutcome<ProductionRelease>)
        requires
            old(self).polls < RELEASE_POLLS,
        ensures
            final(self).release_id == old(self).release_id,
            final(self).polls == old(self).polls + 1,
            ({
                let pending = if old(self).polls + 1 < RELEASE_POLLS {
                    r == PollOutcome::<ProductionRelease>::Wait(2000)
                } else {
                    r matches PollOutcome::TimedOut(m) && m@ == release_timeout(old(self).release_id@)
                };
                match check {
                    ReleaseCheck::Unreachable => pending,
                    ReleaseCheck::Status(s) => match release_phase_of(s.status@) {
                        ReleasePhase::Succeeded => r == PollOutcome::Done(s),
                        ReleasePhase::Failed => r matches PollOutcome::Failed(m) && m@
                            == release_failure(s),
                        ReleasePhase::Pending => pending,
                    },
                }
            }),
    {
        self.polls = self.polls + 1;
        let status = match check {
            ReleaseCheck::Unreachable => None,
            ReleaseCheck::Status(s) => Some(s),
        };
        match status {
            Some(s) => match release_phase(s.status.as_str()) {
                ReleasePhase::Succeeded => {
                    return PollOutcome::Done(s);
                },
                ReleasePhase::Failed => {
                    let mut v: Vec<char> = Vec::new();
                    push_str(&mut v, "production release failed (phase=");
                    push_or(&mut v, &s.phase, "-");
                    push_str(&mut v, ", code=");
                    push_or(&mut v, &s.error_code, "-");
                    push_str(&mut v, "): ");
                    push_or(&mut v, &s.error_message, "unknown error");
                    assert(v@ =~= release_failure(s));
                    return PollOutcome::Failed(string_of(v.as_slice()));
                },
                ReleasePhase::Pending => {},
            },
            None => {},
        }
        if self.polls < RELEASE_POLLS {
            PollOutcome::Wait(2000)
        } else {
            let mut v: Vec<char> = Vec::new();
            push_str(&mut v, "production release timed out after 10 minutes (release ID: ");
            push_str(&mut v, self.release_id.as_str());
            push_str(&mut v, ")");
            PollOutcome::TimedOut(string_of(v.as_slice()))
        }
    }
}

/// The deployment shown for a finished production release.
pub fn release_deployment(release: &ProductionRelease) -> (r: DeploymentResponse)
    ensures
        r.success,
        r.message@ == release.status@,
        r.commit_hash is None,
        opt_str(r.production_url) == opt_str(release.production_url),
        r.vercel_url is None,
        opt_str(r.deployment_id) == opt_str(first_some(release.deployment_id, release.id)),
{
    let id = match &release.deployment_id {
        Some(d) => Some(d.clone()),
        None => opt_clone(&release.id),
    };
    DeploymentResponse {
        success: true,
        message: release.status.clone(),
        commit_hash: None,
        production_url: opt_clone(&release.production_url),
        vercel_url: None,
        deployment_id: id,
    }
}

} // verus!

verus! {

/// A deployment request's outcome: a green title over its fields.
pub fn deploy_response_view(title: &str, d: &DeploymentResponse) -> (r: Section)
    ensures
        heading_ok(r.heading, title@, None),
        r.fields.indent == 2,
        r.fields.gap == 2,
        styled_as_fields(r.fields.fields@),
        fields_text(r.fields.fields@) == seq![
            ("Success"@, if d.success { "true"@ } else { "false"@ }),
            ("Message"@, d.message@),
            ("Production URL"@, or_dash(opt_str(d.production_url))),
            ("Vercel URL"@, or_dash(opt_str(d.vercel_url))),
            ("Commit"@, or_dash(opt_str(d.commit_hash))),
            ("Deployment ID"@, or_dash(opt_str(d.deployment_id))),
        ],
{
    let mut fs: Vec<Field> = Vec::new();
    fs.push(field("Success", if d.success { "true" } else { "false" }));
    fs.push(field("Message", d.message.as_str()));
    fs.push(field_opt("Production URL", &d.production_url));
    fs.push(field_opt("Vercel URL", &d.vercel_url));
    fs.push(field_opt("Commit", &d.commit_hash));
    fs.push(field_opt("Deployment ID", &d.deployment_id));
    proof {
        reveal_strlit("true");
        reveal_strlit("false");
    }
    let r = Section { heading: heading(title, None), fields: Fields::new(fs).indent(2) };
    assert(fields_text(r.fields.fields@) =~= seq![
        ("Success"@, if d.success { "true"@ } else { "false"@ }),
        ("Message"@, d.message@),
        ("Production URL"@, or_dash(opt_str(d.production_url))),
        ("Vercel URL"@, or_dash(opt_str(d.vercel_url))),
        ("Commit"@, or_dash(opt_str(d.commit_hash))),
        ("Deployment ID"@, or_dash(opt_str(d.deployment_id))),
    ]);
    r
}

/// A deployment in the history.
#[derive(Debug, Clone)]
pub struct DeploymentInfo {
    pub id: String,
    pub environment: String,
    pub status: String,
    pub git_branch: Option<String>,
    pub created_at: String,
    pub url: String,
}

pub open spec fn history_cells(d: DeploymentInfo) -> Seq<Seq<char>> {
    seq![d.id@, d.environment@, d.status@, or_dash(opt_str(d.git_branch)), d.created_at@, d.url@]
}

pub open spec fn history_header() -> Seq<Seq<char>> {
    seq!["id"@, "env"@, "status"@, "branch"@, "created_at"@, "url"@]
}

/// The deployment history as a table, or a note that there is none.
pub fn deploy_history_view(deployments: &Vec<DeploymentInfo>) -> (r: Listing)
    ensures
        crate::view::listing_ok(
            r,
            "No deployments found."@,
            history_header(),
            Seq::new(deployments@.len(), |i: int| history_cells(deployments@[i])),
        ),
{
    let ghost cells = Seq::new(deployments@.len(), |i: int| history_cells(deployments@[i]));
    let mut rows: Vec<TableRow> = Vec::new();
    let mut i: usize = 0;
    while i < deployments.len()
        invariant
            i <= deployments@.len(),
            cells == Seq::new(deployments@.len(), |i: int| history_cells(deployments@[i])),
            rows@.len() == i,
            forall|j: int| 0 <= j < i ==> crate::view::plain_row(#[trigger] rows@[j], cells[j]),
        decreases deployments@.len() - i,
    {
        let d = &deployments[i];
        let branch = match &d.git_branch {
            Some(b) => b.clone(),
            None => "-".to_owned(),
        };
        let mut c: Vec<String> = Vec::new();
        c.push(d.id.clone());
        c.push(d.environment.clone());
        c.push(d.status.clone());
        c.push(branch);
        c.push(d.created_at.clone());
        c.push(d.url.clone());
        assert(crate::view::string_texts(c@) =~= cells[i as int]);
        let row = crate::view::row_of(c);
        rows.push(row);
        i = i + 1;
    }
    let mut hv: Vec<String> = Vec::new();
    hv.push("id".to_owned());
    hv.push("env".to_owned());
    hv.push("status".to_owned());
    hv.push("branch".to_owned());
    hv.push("created_at".to_owned());
    hv.push("url".to_owned());
    assert(crate::view::string_texts(hv@) =~= history_header());
    let header = crate::view::row_of(hv);
    crate::view::listing("No deployments found.", header, rows, Ghost(history_header()), Ghost(cells))
}

} // verus!

verus! {

/// The build logs: a green title, whether they came from the cache
/// (dimmed), a blank line, then the log.
pub fn deploy_logs_view(from_cache: bool, build_log: &str) -> (r: Text)
    ensures
        crate::view::lines_are(
            r,
            seq![
                ("Build logs"@, Some(Style::plain().with_fg(crate::text::style::AnsiColor::Green))),
                ("from_cache="@ + (if from_cache { "true"@ } else { "false"@ }), Some(
                    Style::plain().with_dimmed(),
                )),
                (seq![], None),
                (build_log@, None),
            ],
        ),
{
    let mut v: Vec<char> = Vec::new();
    push_str(&mut v, "from_cache=");
    if from_cache {
        push_str(&mut v, "true");
    } else {
        push_str(&mut v, "false");
    }
    let b = crate::view::LinesBuilder::new().styled("Build logs".to_owned(), theme::success()).styled(
        string_of(v.as_slice()),
        theme::dim(),
    ).plain(String::new()).plain(build_log.to_owned());
    assert(b.expected@ =~= seq![
        ("Build logs"@, Some(Style::plain().with_fg(crate::text::style::AnsiColor::Green))),
        ("from_cache="@ + (if from_cache { "true"@ } else { "false"@ }), Some(
            Style::plain().with_dimmed(),
        )),
        (seq![], None),
        (build_log@, None),
    ]);
    b.text
}

/// The preview line of the status summary: success, message and the
/// production URL, else the Vercel URL, else `-`.
pub open spec fn preview_line(p: DeploymentResponse) -> Seq<char> {
    "  success="@ + (if p.success { "true"@ } else { "false"@ }) + " message="@ + p.message@
        + " url="@ + or_dash(opt_str(first_some(p.production_url, p.vercel_url)))
}

pub open spec fn latest_line(latest: Option<DeploymentInfo>) -> Seq<char> {
    match latest {
        Some(d) => "  "@ + d.environment@ + " "@ + d.status@ + " "@ + d.created_at@ + " "@ + d.url@,
        None => "  -"@,
    }
}

/// `d1v deploy status`: the preview's state and the latest deployment.
pub fn deploy_status_view(preview: &DeploymentResponse, latest: Option<&DeploymentInfo>) -> (r: Text)
    ensures
        crate::view::lines_are(
            r,
            seq![
                ("Deployment status"@, Some(
                    Style::plain().with_fg(crate::text::style::AnsiColor::Green),
                )),
                (seq![], None),
                ("Preview"@, None),
                (preview_line(*preview), None),
                (seq![], None),
                ("Latest history"@, None),
                (latest_line(
                    match latest {
                        Some(d) => Some(*d),
                        None => None,
                    },
                ), None),
            ],
        ),
{
    let mut p: Vec<char> = Vec::new();
    push_str(&mut p, "  success=");
    if preview.success {
        push_str(&mut p, "true");
    } else {
        push_str(&mut p, "false");
    }
    push_str(&mut p, " message=");
    push_str(&mut p, preview.message.as_str());
    push_str(&mut p, " url=");
    match &preview.production_url {
        Some(u) => push_str(&mut p, u.as_str()),
        None => match &preview.vercel_url {
            Some(u) => push_str(&mut p, u.as_str()),
            None => push_str(&mut p, "-"),
        },
    }
    assert(p@ =~= preview_line(*preview));
    let mut l: Vec<char> = Vec::new();
    match latest {
        Some(d) => {
            push_str(&mut l, "  ");
            push_str(&mut l, d.environment.as_str());
            push_str(&mut l, " ");
            push_str(&mut l, d.status.as_str());
            push_str(&mut l, " ");
            push_str(&mut l, d.created_at.as_str());
            push_str(&mut l, " ");
            push_str(&mut l, d.url.as_str());
        },
        None => push_str(&mut l, "  -"),
    }
    let ghost lv = latest_line(
        match latest {
            Some(d) => Some(*d),
            None => None,
        },
    );
    assert(l@ =~= lv);
    let b = crate::view::LinesBuilder::new().styled("Deployment status".to_owned(), theme::success()).plain(
        String::new(),
    ).plain("Preview".to_owned()).plain(string_of(p.as_slice())).plain(String::new()).plain(
        "Latest history".to_owned(),
    ).plain(string_of(l.as_slice()));
    assert(b.expected@ =~= seq![
        ("Deployment status"@, Some(Style::plain().with_fg(crate::text::style::AnsiColor::Green))),
        (seq![], None),
        ("Preview"@, None),
        (preview_line(*preview), None),
        (seq![], None),
        ("Latest history"@, None),
        (lv, None),
    ]);
    b.text
}

} // verus!

verus! {

/// Whether a production release may be requested: only from a terminal,
/// and only once the user confirmed it.
pub open spec fn release_admission_spec(interactive: bool, confirmed: bool) -> Result<(), ReleaseRefusal> {
    if !interactive {
        Err(ReleaseRefusal::NotInteractive)
    } else if !confirmed {
        Err(ReleaseRefusal::Canceled)
    } else {
        Ok(())
    }
}

/// The check before a production release: refused without a terminal
/// (asked first, before anything is fetched), canceled without the
/// user's confirmation.
pub fn admit_release(interactive: bool, confirmed: bool) -> (r: Result<(), ReleaseRefusal>)
    ensures
        r == release_admission_spec(interactive, confirmed),
{
    if !interactive {
        Err(ReleaseRefusal::NotInteractive)
    } else if !confirmed {
        Err(ReleaseRefusal::Canceled)
    } else {
        Ok(())
    }
}

/// A production release is requested only from a terminal and after an
/// explicit confirmation.
pub proof fn lemma_release_needs_confirmation(interactive: bool, confirmed: bool)
    ensures
        release_admission_spec(interactive, confirmed) is Ok <==> (interactive && confirmed),
        !interactive ==> release_admission_spec(interactive, confirmed) == Err::<(), ReleaseRefusal>(
            ReleaseRefusal::NotInteractive,
        ),
{
}

/// The id of the release just created, which the wait polls.
pub fn created_release_id(release: &ProductionRelease) -> (r: Result<String, ReleaseRefusal>)
    ensures
        match release.id {
            Some(id) => r matches Ok(s) && s@ == id@,
            None => r == Err::<String, ReleaseRefusal>(ReleaseRefusal::MissingId),
        },
{
    match &release.id {
        Some(id) => Ok(id.clone()),
        None => Err(ReleaseRefusal::MissingId),
    }
}

} // verus!
