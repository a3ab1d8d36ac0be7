//! Starting and upgrading the runtime node: the images, the confirmation
//! answer, the `docker run` arguments of the runtime agent, the summary
//! shown after a start, and the decisions of an upgrade. Running Docker is
//! the caller's part.
use super::{StartArgs, UpgradeArgs, AGENT_CONTAINER_NAME};
use crate::relay::{json_string, json_string_literal};
use crate::strs::{
    chars_of, dec, lower_seq, push_dec, push_str, seq_eq, starts_with_str, string_of, to_lower,
    trim, trim_ws,
};
use vstd::prelude::*;

verus! {

/// The runtime agent image `node start` runs unless told otherwise.
pub const START_RUNTIME_AGENT_IMAGE: &'static str = "299000395210.dkr.ecr.ap-southeast-1.amazonaws.com/d1v-runtime-agent:latest";

/// The opcode image the runtime agent is told to use unless told otherwise.
pub const DEFAULT_OPCODE_IMAGE: &'static str = "299000395210.dkr.ecr.ap-southeast-1.amazonaws.com/d1v-opcode:latest";

/// The standalone opcode-api image `node start` also pulls.
pub const OPCODE_API_IMAGE: &'static str = "ghcr.io/d1vai/opcode-api:latest";

/// The runtime agent image `node upgrade` moves to unless told otherwise.
pub const UPGRADE_RUNTIME_AGENT_IMAGE: &'static str = "ghcr.io/d1vai/d1v-runtime-agent:latest";

/// The registry of the runtime agent image, and its region.
pub const ECR_REGISTRY: &'static str = "299000395210.dkr.ecr.ap-southeast-1.amazonaws.com";

pub const ECR_REGION: &'static str = "ap-southeast-1";

/// A yes to `[y/N]`: the trimmed answer is `y` or `yes` in any case.
pub open spec fn is_yes(answer: Seq<char>) -> bool {
    let a = lower_seq(trim_ws(answer));
    a == "y"@ || a == "yes"@
}

pub fn confirmed(answer: &str) -> (r: bool)
    ensures
        r == is_yes(answer@),
{
    let a = to_lower(trim(chars_of(answer).as_slice()).as_slice());
    seq_eq(a.as_slice(), chars_of("y").as_slice()) || seq_eq(a.as_slice(), chars_of("yes").as_slice())
}

/// The platform key `node start` needs.
pub fn platform_key(key: &Option<String>) -> (r: Result<String, String>)
    ensures
        match key {
            Some(k) => r matches Ok(s) && s@ == k@,
            None => r matches Err(m) && m@
                == "Platform node key is required. Use --key or set D1V_PLATFORM_NODE_KEY env var"@,
        },
{
    match key {
        Some(k) => Ok(k.clone()),
        None => Err("Platform node key is required. Use --key or set D1V_PLATFORM_NODE_KEY env var".to_owned()),
    }
}

pub open spec fn opt_or(o: Option<String>, d: Seq<char>) -> Seq<char> {
    match o {
        Some(s) => s@,
        None => d,
    }
}

fn or_default(o: &Option<String>, d: &str) -> (r: String)
    ensures
        r@ == opt_or(*o, d@),
{
    match o {
        Some(s) => s.clone(),
        None => d.to_owned(),
    }
}

/// The images of a start: the runtime agent's and the opcode image handed
/// to it, each the one given or the default.
pub fn start_images(args: &StartArgs) -> (r: (String, String))
    ensures
        r.0@ == opt_or(args.runtime_agent_image, START_RUNTIME_AGENT_IMAGE@),
        r.1@ == opt_or(args.opcode_image, DEFAULT_OPCODE_IMAGE@),
{
    (
        or_default(&args.runtime_agent_image, START_RUNTIME_AGENT_IMAGE),
        or_default(&args.opcode_image, DEFAULT_OPCODE_IMAGE),
    )
}

/// The node id: the one given, else the `HOSTNAME`, else the `HOST`
/// variable, else `unknown-node`.
pub fn node_id_of(explicit: &Option<String>, hostname: &Option<String>, host: &Option<String>) -> (r:
    String)
    ensures
        r@ == opt_or(*explicit, opt_or(*hostname, opt_or(*host, "unknown-node"@))),
{
    match explicit {
        Some(s) => s.clone(),
        None => match hostname {
            Some(s) => s.clone(),
            None => or_default(host, "unknown-node"),
        },
    }
}

/// The `docker run` arguments of the runtime agent: detached, restarted
/// unless stopped, on the host network, with the Docker socket, the Docker
/// credentials of `home` read-only and the workspace root mounted, and its
/// settings as variables.
pub open spec fn agent_run_args_spec(
    args: StartArgs,
    agent_ws_port: u16,
    platform_key: Seq<char>,
    node_id: Seq<char>,
    home: Seq<char>,
    runtime_image: Seq<char>,
    opcode_image: Seq<char>,
) -> Seq<Seq<char>> {
    seq![
        "run"@,
        "-d"@,
        "--name"@,
        AGENT_CONTAINER_NAME@,
        "--restart"@,
        "unless-stopped"@,
        "--network"@,
        "host"@,
        "-v"@,
        "/var/run/docker.sock:/var/run/docker.sock"@,
        "-v"@,
        home + "/.docker:/root/.docker:ro"@,
        "-v"@,
        args.workspace_root@ + ":"@ + args.workspace_root@,
        "-e"@,
        "D1V_CONTROL_PLANE_URL="@ + args.control_plane@,
        "-e"@,
        "D1V_RUNTIME_PLATFORM_NODE_KEY="@ + platform_key,
        "-e"@,
        "D1V_RUNTIME_NODE_ID="@ + node_id,
        "-e"@,
        "D1V_RUNTIME_AGENT_PORT="@ + dec(args.agent_port as nat),
        "-e"@,
        "D1V_RUNTIME_AGENT_WS_PORT="@ + dec(agent_ws_port as nat),
        "-e"@,
        "D1V_RUNTIME_AUTO_DETECT_PUBLIC_IP=1"@,
        "-e"@,
        "D1V_RUNTIME_MAX_OPCODE_CONTAINERS="@ + dec(args.max_opcode_containers as nat),
        "-e"@,
        "D1V_OPCODE_IMAGE="@ + opcode_image,
        runtime_image,
    ]
}

fn cat(a: &str, b: &str) -> (r: String)
    ensures
        r@ == a@ + b@,
{
    let mut v: Vec<char> = Vec::new();
    push_str(&mut v, a);
    push_str(&mut v, b);
    string_of(v.as_slice())
}

fn cat_num(a: &str, n: u64) -> (r: String)
    ensures
        r@ == a@ + dec(n as nat),
{
    let mut v: Vec<char> = Vec::new();
    push_str(&mut v, a);
    push_dec(&mut v, n);
    string_of(v.as_slice())
}

pub fn agent_run_args(
    args: &StartArgs,
    agent_ws_port: u16,
    platform_key: &str,
    node_id: &str,
    home: &str,
    runtime_image: &str,
    opcode_image: &str,
) -> (r: Vec<String>)
    ensures
        crate::view::string_texts(r@) == agent_run_args_spec(
            *args,
            agent_ws_port,
            platform_key@,
            node_id@,
            home@,
            runtime_image@,
            opcode_image@,
        ),
{
    let mut v: Vec<String> = Vec::new();
    v.push("run".to_owned());
    v.push("-d".to_owned());
    v.push("--name".to_owned());
    v.push(AGENT_CONTAINER_NAME.to_owned());
    v.push("--restart".to_owned());
    v.push("unless-stopped".to_owned());
    v.push("--network".to_owned());
    v.push("host".to_owned());
    v.push("-v".to_owned());
    v.push("/var/run/docker.sock:/var/run/docker.sock".to_owned());
    v.push("-v".to_owned());
    v.push(cat(home, "/.docker:/root/.docker:ro"));
    v.push("-v".to_owned());
    let wr = cat(args.workspace_root.as_str(), ":");
    v.push(cat(wr.as_str(), args.workspace_root.as_str()));
    v.push("-e".to_owned());
    v.push(cat("D1V_CONTROL_PLANE_URL=", args.control_plane.as_str()));
    v.push("-e".to_owned());
    v.push(cat("D1V_RUNTIME_PLATFORM_NODE_KEY=", platform_key));
    v.push("-e".to_owned());
    v.push(cat("D1V_RUNTIME_NODE_ID=", node_id));
    v.push("-e".to_owned());
    v.push(cat_num("D1V_RUNTIME_AGENT_PORT=", args.agent_port as u64));
    v.push("-e".to_owned());
    v.push(cat_num("D1V_RUNTIME_AGENT_WS_PORT=", agent_ws_port as u64));
    v.push("-e".to_owned());
    v.push("D1V_RUNTIME_AUTO_DETECT_PUBLIC_IP=1".to_owned());
    v.push("-e".to_owned());
    v.push(cat_num("D1V_RUNTIME_MAX_OPCODE_CONTAINERS=", args.max_opcode_containers as u64));
    v.push("-e".to_owned());
    v.push(cat("D1V_OPCODE_IMAGE=", opcode_image));
    v.push(runtime_image.to_owned());
    assert(crate::view::string_texts(v@) =~= agent_run_args_spec(
        *args,
        agent_ws_port,
        platform_key@,
        node_id@,
        home@,
        runtime_image@,
        opcode_image@,
    ));
    v
}

/// What a start reports once the agent runs.
pub open spec fn start_summary_text(node_id: Seq<char>, args: StartArgs, agent_ws_port: u16) -> Seq<char> {
    "╔════════════════════════════════════════════════════════════════╗\n║          D1V Platform Node Started Successfully!               ║\n╚════════════════════════════════════════════════════════════════╝\n\nNode Information:\n  Node ID:           "@ + node_id
        + "\n  Control Plane:     "@ + args.control_plane@
        + "\n\nContainer Details:\n  Runtime Agent:     "@ + AGENT_CONTAINER_NAME@ + " (ports "@
        + dec(args.agent_port as nat) + ", "@ + dec(agent_ws_port as nat)
        + ")\n\nWorkspace:\n  Root:              "@ + args.workspace_root@
        + "\n\nManagement Commands:\n  View status:       d1v node status\n  View logs:         d1v node logs -f\n  Stop node:         d1v node stop\n\n✓ Node is ready to accept workloads\n\n"@
}

pub fn start_summary(node_id: &str, args: &StartArgs, agent_ws_port: u16) -> (r: String)
    ensures
        r@ == start_summary_text(node_id@, *args, agent_ws_port),
{
    let mut v: Vec<char> = Vec::new();
    push_str(&mut v, "╔════════════════════════════════════════════════════════════════╗\n║          D1V Platform Node Started Successfully!               ║\n╚════════════════════════════════════════════════════════════════╝\n\nNode Information:\n  Node ID:           ");
    push_str(&mut v, node_id);
    push_str(&mut v, "\n  Control Plane:     ");
    push_str(&mut v, args.control_plane.as_str());
    push_str(&mut v, "\n\nContainer Details:\n  Runtime Agent:     ");
    push_str(&mut v, AGENT_CONTAINER_NAME);
    push_str(&mut v, " (ports ");
    push_dec(&mut v, args.agent_port as u64);
    push_str(&mut v, ", ");
    push_dec(&mut v, agent_ws_port as u64);
    push_str(&mut v, ")\n\nWorkspace:\n  Root:              ");
    push_str(&mut v, args.workspace_root.as_str());
    push_str(
        &mut v,
        "\n\nManagement Commands:\n  View status:       d1v node status\n  View logs:         d1v node logs -f\n  Stop node:         d1v node stop\n\n✓ Node is ready to accept workloads\n\n",
    );
    assert(v@ =~= start_summary_text(node_id@, *args, agent_ws_port));
    string_of(v.as_slice())
}

} // verus!

verus! {

/// How the running agent container was started, as Docker reports it.
#[derive(Debug, Clone)]
pub struct ContainerRuntimeConfig {
    pub image_ref: String,
    pub env: Vec<String>,
    pub binds: Vec<String>,
    pub restart_policy_name: String,
    pub network_mode: String,
}

/// The image an upgrade moves to.
pub fn target_image_ref(override_ref: &Option<String>) -> (r: String)
    ensures
        r@ == opt_or(*override_ref, UPGRADE_RUNTIME_AGENT_IMAGE@),
{
    or_default(override_ref, UPGRADE_RUNTIME_AGENT_IMAGE)
}

/// The first variable that sets the agent port.
pub open spec fn first_with_prefix(env: Seq<Seq<char>>, prefix: Seq<char>) -> Option<Seq<char>>
    decreases env.len(),
{
    if env.len() == 0 {
        None
    } else if crate::strs::has_prefix(env[0], prefix) {
        Some(env[0].skip(prefix.len() as int))
    } else {
        first_with_prefix(env.drop_first(), prefix)
    }
}

/// The agent's port: the value of the first `D1V_RUNTIME_AGENT_PORT=`
/// variable when it is a port number, else 8080.
pub open spec fn agent_port_of(env: Seq<Seq<char>>) -> u16 {
    match first_with_prefix(env, "D1V_RUNTIME_AGENT_PORT="@) {
        Some(v) => match crate::strs::parse_u16(v) {
            Some(p) => p,
            None => 8080,
        },
        None => 8080,
    }
}

pub fn runtime_agent_port(config: &ContainerRuntimeConfig) -> (r: u16)
    ensures
        r == agent_port_of(crate::view::string_texts(config.env@)),
{
    let ghost env = crate::view::string_texts(config.env@);
    let prefix = chars_of("D1V_RUNTIME_AGENT_PORT=");
    proof {
        reveal_strlit("D1V_RUNTIME_AGENT_PORT=");
    }
    let mut i: usize = 0;
    assert(env.skip(0) =~= env);
    while i < config.env.len()
        invariant
            i <= config.env@.len(),
            env == crate::view::string_texts(config.env@),
            prefix@ == "D1V_RUNTIME_AGENT_PORT="@,
            first_with_prefix(env.skip(i as int), prefix@) == first_with_prefix(env, prefix@),
        decreases config.env@.len() - i,
    {
        assert(env.skip(i as int)[0] == config.env@[i as int]@);
        assert(env.skip(i as int).drop_first() =~= env.skip(i + 1));
        let e = chars_of(config.env[i].as_str());
        if crate::strs::starts_with(e.as_slice(), prefix.as_slice()) {
            let rest = crate::strs::slice_vec(e.as_slice(), prefix.len(), e.len());
            assert(rest@ =~= e@.skip(prefix@.len() as int));
            return match crate::strs::parse_u16_chars(rest.as_slice()) {
                Some(p) => p,
                None => 8080,
            };
        }
        i = i + 1;
    }
    8080
}

/// The variables with the opcode image set to `image`: the first
/// `D1V_OPCODE_IMAGE=` entry replaced, or the entry added at the end.
pub open spec fn env_with_opcode_image(env: Seq<Seq<char>>, image: Seq<char>) -> Seq<Seq<char>> {
    let entry = "D1V_OPCODE_IMAGE="@ + image;
    if exists|i: int| 0 <= i < env.len() && crate::strs::has_prefix(env[i], "D1V_OPCODE_IMAGE="@) {
        let k = choose|i: int|
            0 <= i < env.len() && crate::strs::has_prefix(env[i], "D1V_OPCODE_IMAGE="@) && forall|j: int|
                0 <= j < i ==> !crate::strs::has_prefix(env[j], "D1V_OPCODE_IMAGE="@);
        env.update(k, entry)
    } else {
        env.push(entry)
    }
}

/// Points the agent at another opcode image, when one is given.
pub fn apply_opcode_image_override(config: &mut ContainerRuntimeConfig, opcode_image: &Option<String>)
    ensures
        final(config).image_ref == old(config).image_ref,
        final(config).binds == old(config).binds,
        final(config).restart_policy_name == old(config).restart_policy_name,
        final(config).network_mode == old(config).network_mode,
        crate::view::string_texts(final(config).env@) == match opcode_image {
            Some(img) => env_with_opcode_image(crate::view::string_texts(old(config).env@), img@),
            None => crate::view::string_texts(old(config).env@),
        },
{
    let img = match opcode_image {
        Some(i) => i,
        None => {
            return;
        },
    };
    let ghost env0 = crate::view::string_texts(config.env@);
    let prefix = chars_of("D1V_OPCODE_IMAGE=");
    let entry = cat("D1V_OPCODE_IMAGE=", img.as_str());
    let mut i: usize = 0;
    while i < config.env.len()
        invariant
            i <= config.env@.len(),
            *config == *old(config),
            *opcode_image == Some(*img),
            entry@ == "D1V_OPCODE_IMAGE="@ + img@,
            env0 == crate::view::string_texts(old(config).env@),
            prefix@ == "D1V_OPCODE_IMAGE="@,
            forall|j: int| 0 <= j < i ==> !crate::strs::has_prefix(env0[j], "D1V_OPCODE_IMAGE="@),
        decreases config.env@.len() - i,
    {
        if crate::strs::starts_with(chars_of(config.env[i].as_str()).as_slice(), prefix.as_slice()) {
            let ghost k = i as int;
            assert(crate::strs::has_prefix(env0[k], "D1V_OPCODE_IMAGE="@));
            let ghost c = choose|q: int|
                0 <= q < env0.len() && crate::strs::has_prefix(env0[q], "D1V_OPCODE_IMAGE="@) && forall|j: int|
                    0 <= j < q ==> !crate::strs::has_prefix(env0[j], "D1V_OPCODE_IMAGE="@);
            assert(c == k) by {
                if c < k {
                } else if c > k {
                    assert(!crate::strs::has_prefix(env0[k], "D1V_OPCODE_IMAGE="@));
                }
            }
            let ghost before = config.env@;
            config.env.set(i, entry);
            assert(config.env@ == before.update(k, config.env@[k]));
            assert(crate::view::string_texts(config.env@) =~= env0.update(k, "D1V_OPCODE_IMAGE="@ + img@));
            assert(exists|q: int| 0 <= q < env0.len() && crate::strs::has_prefix(env0[q], "D1V_OPCODE_IMAGE="@));
            assert(env_with_opcode_image(env0, img@) == env0.update(c, "D1V_OPCODE_IMAGE="@ + img@));
            return;
        }
        i = i + 1;
    }
    config.env.push(entry);
    assert(crate::view::string_texts(config.env@) =~= env0.push("D1V_OPCODE_IMAGE="@ + img@));
}

/// What an upgrade does once it knows whether the image changed.
#[derive(Debug, Clone, Copy, PartialEq, Eq)]
pub enum UpgradeStep {
    /// Stop after the JSON report.
    ReportOnly,
    /// Say whether an update is available, and stop.
    CheckOnly { available: bool },
    /// Say the image is up to date, and stop.
    UpToDate,
    /// Say what would be done, and stop.
    DryRun,
    /// Ask before upgrading (unless told yes), then upgrade.
    Upgrade { ask: bool },
}

/// The order of an upgrade's decisions: the JSON report ends it when
/// checking, dry-running or up to date; a check reports; an up-to-date
/// image ends it; a dry run describes; otherwise it upgrades.
pub open spec fn upgrade_step_spec(args: UpgradeArgs, needed: bool) -> UpgradeStep {
    if args.json && (args.check || args.dry_run || !needed) {
        UpgradeStep::ReportOnly
    } else if args.check {
        UpgradeStep::CheckOnly { available: needed }
    } else if !needed {
        UpgradeStep::UpToDate
    } else if args.dry_run {
        UpgradeStep::DryRun
    } else {
        UpgradeStep::Upgrade { ask: !args.yes }
    }
}

pub fn upgrade_step(args: &UpgradeArgs, needed: bool) -> (r: UpgradeStep)
    ensures
        r == upgrade_step_spec(*args, needed),
{
    if args.json && (args.check || args.dry_run || !needed) {
        UpgradeStep::ReportOnly
    } else if args.check {
        UpgradeStep::CheckOnly { available: needed }
    } else if !needed {
        UpgradeStep::UpToDate
    } else if args.dry_run {
        UpgradeStep::DryRun
    } else {
        UpgradeStep::Upgrade { ask: !args.yes }
    }
}

/// The upgrade report: keys in order, pretty-printed as `serde_json` does.
pub open spec fn upgrade_json_text(
    args: UpgradeArgs,
    image_ref: Seq<char>,
    current_image_ref: Seq<char>,
    current_image_id: Seq<char>,
    remote_digest: Seq<char>,
) -> Seq<char> {
    let b = |x: bool| if x { "true"@ } else { "false"@ };
    "{\n  \"check_only\": "@ + b(args.check) + ",\n  \"current_image_id\": "@ + json_string_literal(
        current_image_id,
    ) + ",\n  \"current_image_ref\": "@ + json_string_literal(current_image_ref)
        + ",\n  \"dry_run\": "@ + b(args.dry_run) + ",\n  \"image_ref\": "@ + json_string_literal(
        image_ref,
    ) + ",\n  \"remote_digest\": "@ + json_string_literal(remote_digest)
        + ",\n  \"upgrade_needed\": "@ + b(current_image_id != remote_digest) + "\n}"@
}

fn push_bool(v: &mut Vec<char>, x: bool)
    ensures
        final(v)@ == old(v)@ + (if x { "true"@ } else { "false"@ }),
{
    if x {
        push_str(v, "true");
    } else {
        push_str(v, "false");
    }
}

fn push_json(v: &mut Vec<char>, s: &str)
    ensures
        final(v)@ == old(v)@ + json_string_literal(s@),
{
    let q = json_string(s);
    push_str(v, q.as_str());
}

/// The JSON report of `node upgrade --json`; an upgrade is needed when the
/// local image id differs from the registry digest.
pub fn upgrade_json(
    args: &UpgradeArgs,
    image_ref: &str,
    current_image_ref: &str,
    current_image_id: &str,
    remote_digest: &str,
) -> (r: String)
    ensures
        r@ == upgrade_json_text(*args, image_ref@, current_image_ref@, current_image_id@, remote_digest@),
{
    let needed = !crate::strs::str_eq(current_image_id, remote_digest);
    let mut v: Vec<char> = Vec::new();
    push_str(&mut v, "{\n  \"check_only\": ");
    push_bool(&mut v, args.check);
    push_str(&mut v, ",\n  \"current_image_id\": ");
    push_json(&mut v, current_image_id);
    push_str(&mut v, ",\n  \"current_image_ref\": ");
    push_json(&mut v, current_image_ref);
    push_str(&mut v, ",\n  \"dry_run\": ");
    push_bool(&mut v, args.dry_run);
    push_str(&mut v, ",\n  \"image_ref\": ");
    push_json(&mut v, image_ref);
    push_str(&mut v, ",\n  \"remote_digest\": ");
    push_json(&mut v, remote_digest);
    push_str(&mut v, ",\n  \"upgrade_needed\": ");
    push_bool(&mut v, needed);
    push_str(&mut v, "\n}");
    assert(v@ =~= upgrade_json_text(*args, image_ref@, current_image_ref@, current_image_id@, remote_digest@));
    string_of(v.as_slice())
}

} // verus!
