//! What `d1v node status` shows of the node's two containers, as text or
//! as JSON. Asking Docker is the caller's part.
use super::docker::{ContainerInfo, ContainerStats};
use crate::relay::{json_string, json_string_literal};
use crate::strs::{chars_of, has_prefix, push_str, starts_with_str, string_of};
use vstd::prelude::*;

verus! {

/// Docker reports a running container with a status beginning `Up`.
pub open spec fn is_up(status: Seq<char>) -> bool {
    has_prefix(status, "Up"@)
}

/// A container status with a mark: running, exited, or anything else.
pub open spec fn status_with_mark(status: Seq<char>) -> Seq<char> {
    if is_up(status) {
        "✅ "@ + status
    } else if has_prefix(status, "Exited"@) {
        "❌ "@ + status
    } else {
        "⚠️  "@ + status
    }
}

pub fn is_running(status: &str) -> (r: bool)
    ensures
        r == is_up(status@),
{
    starts_with_str(chars_of(status).as_slice(), "Up")
}

pub fn format_status(status: &str) -> (r: String)
    ensures
        r@ == status_with_mark(status@),
{
    let c = chars_of(status);
    let mut v: Vec<char> = Vec::new();
    if starts_with_str(c.as_slice(), "Up") {
        push_str(&mut v, "✅ ");
    } else if starts_with_str(c.as_slice(), "Exited") {
        push_str(&mut v, "❌ ");
    } else {
        push_str(&mut v, "⚠️  ");
    }
    push_str(&mut v, status);
    string_of(v.as_slice())
}

/// The usage lines of a running container whose figures are known.
pub open spec fn stats_text(info: ContainerInfo, stats: Option<ContainerStats>) -> Seq<char> {
    if is_up(info.status@) {
        match stats {
            Some(st) => "  CPU:        "@ + st.cpu_percent@ + "\n  Memory:     "@ + st.mem_usage@
                + " / "@ + st.mem_limit@ + " ("@ + st.mem_percent@ + ")\n"@,
            None => seq![],
        }
    } else {
        seq![]
    }
}

/// One container's section: its name, marked status, image and ports
/// (`host network` when the agent publishes none), then its usage; or the
/// line for a missing container.
pub open spec fn container_text(
    title: Seq<char>,
    info: Option<ContainerInfo>,
    stats: Option<ContainerStats>,
    host_network_when_empty: bool,
    missing: Seq<char>,
) -> Seq<char> {
    title + match info {
        Some(i) => info_text(i, host_network_when_empty) + stats_text(i, stats),
        None => missing,
    } + "\n"@
}

/// The whole status: a title and rule, the runtime agent, the optional
/// `opcode-api`, and the node as running exactly when the agent is up.
pub open spec fn node_status_text(
    agent: Option<ContainerInfo>,
    agent_stats: Option<ContainerStats>,
    opcode: Option<ContainerInfo>,
    opcode_stats: Option<ContainerStats>,
) -> Seq<char> {
    "D1V Platform Node Status\n═══════════════════════════════════════════════════════════════\n\n"@ + container_text(
        "Runtime Agent:\n"@,
        agent,
        agent_stats,
        true,
        "  Status:     ❌ Not found\n"@,
    ) + container_text(
        "Opcode API:\n"@,
        opcode,
        opcode_stats,
        false,
        "  Status:     ℹ️  Not found (optional)\n"@,
    ) + (if agent matches Some(a) && is_up(a.status@) {
        "Overall Status: ✅ RUNNING\n"@
    } else {
        "Overall Status: ❌ STOPPED\n"@
    })
}

fn push_stats(v: &mut Vec<char>, info: &ContainerInfo, stats: &Option<ContainerStats>)
    ensures
        final(v)@ == old(v)@ + stats_text(*info, *stats),
{
    let ghost v0 = v@;
    if is_running(info.status.as_str()) {
        match stats {
            Some(st) => {
                push_str(v, "  CPU:        ");
                push_str(v, st.cpu_percent.as_str());
                push_str(v, "\n  Memory:     ");
                push_str(v, st.mem_usage.as_str());
                push_str(v, " / ");
                push_str(v, st.mem_limit.as_str());
                push_str(v, " (");
                push_str(v, st.mem_percent.as_str());
                push_str(v, ")\n");
            },
            None => {},
        }
    }
    assert(v@ =~= v0 + stats_text(*info, *stats));
}

/// The lines of a container that exists, before its usage.
pub open spec fn info_text(i: ContainerInfo, host_network_when_empty: bool) -> Seq<char> {
    "  Container:  "@ + i.name@ + "\n  Status:     "@ + status_with_mark(i.status@)
        + "\n  Image:      "@ + i.image@ + "\n  Ports:      "@ + (if host_network_when_empty
        && i.ports@.len() == 0 {
        "host network"@
    } else {
        i.ports@
    }) + "\n"@
}

fn push_info(v: &mut Vec<char>, i: &ContainerInfo, host_network_when_empty: bool)
    ensures
        final(v)@ == old(v)@ + info_text(*i, host_network_when_empty),
{
    let ghost v0 = v@;
    push_str(v, "  Container:  ");
    push_str(v, i.name.as_str());
    push_str(v, "\n  Status:     ");
    let s = format_status(i.status.as_str());
    push_str(v, s.as_str());
    push_str(v, "\n  Image:      ");
    push_str(v, i.image.as_str());
    push_str(v, "\n  Ports:      ");
    if host_network_when_empty && i.ports.unicode_len() == 0 {
        push_str(v, "host network");
    } else {
        push_str(v, i.ports.as_str());
    }
    push_str(v, "\n");
    assert(v@ =~= v0 + info_text(*i, host_network_when_empty));
}

fn push_container(
    v: &mut Vec<char>,
    title: &str,
    info: &Option<ContainerInfo>,
    stats: &Option<ContainerStats>,
    host_network_when_empty: bool,
    missing: &str,
)
    ensures
        final(v)@ == old(v)@ + container_text(
            title@,
            *info,
            *stats,
            host_network_when_empty,
            missing@,
        ),
{
    let ghost v0 = v@;
    push_str(v, title);
    match info {
        Some(i) => {
            push_info(v, i, host_network_when_empty);
            push_stats(v, i, stats);
        },
        None => push_str(v, missing),
    }
    push_str(v, "\n");
    assert(v@ =~= v0 + container_text(title@, *info, *stats, host_network_when_empty, missing@));
}

/// The text of `d1v node status`; usage figures are shown only for a
/// running container.
pub fn node_status(
    agent: &Option<ContainerInfo>,
    agent_stats: &Option<ContainerStats>,
    opcode: &Option<ContainerInfo>,
    opcode_stats: &Option<ContainerStats>,
) -> (r: String)
    ensures
        r@ == node_status_text(*agent, *agent_stats, *opcode, *opcode_stats),
{
    let mut v: Vec<char> = Vec::new();
    push_str(&mut v, "D1V Platform Node Status\n═══════════════════════════════════════════════════════════════\n\n");
    push_container(
        &mut v,
        "Runtime Agent:\n",
        agent,
        agent_stats,
        true,
        "  Status:     ❌ Not found\n",
    );
    push_container(
        &mut v,
        "Opcode API:\n",
        opcode,
        opcode_stats,
        false,
        "  Status:     ℹ️  Not found (optional)\n",
    );
    let running = match agent {
        Some(a) => is_running(a.status.as_str()),
        None => false,
    };
    if running {
        push_str(&mut v, "Overall Status: ✅ RUNNING\n");
    } else {
        push_str(&mut v, "Overall Status: ❌ STOPPED\n");
    }
    assert(v@ =~= node_status_text(*agent, *agent_stats, *opcode, *opcode_stats));
    string_of(v.as_slice())
}

/// One container as a JSON object, indented as the pretty printer of
/// `serde_json` nests it one level deep: its fields and whether it runs,
/// or `not_found`.
pub open spec fn container_json(info: Option<ContainerInfo>) -> Seq<char> {
    match info {
        Some(i) => "{\n    \"id\": "@ + json_string_literal(i.id@) + ",\n    \"image\": "@
            + json_string_literal(i.image@) + ",\n    \"name\": "@ + json_string_literal(i.name@)
            + ",\n    \"ports\": "@ + json_string_literal(i.ports@) + ",\n    \"running\": "@ + (if is_up(
            i.status@,
        ) {
            "true"@
        } else {
            "false"@
        }) + ",\n    \"status\": "@ + json_string_literal(i.status@) + "\n  }"@,
        None => "{\n    \"running\": false,\n    \"status\": \"not_found\"\n  }"@,
    }
}

/// `d1v node status --json`: both containers, keys in order.
pub open spec fn node_status_json_text(agent: Option<ContainerInfo>, opcode: Option<ContainerInfo>) -> Seq<
    char,
> {
    "{\n  \"opcode_api\": "@ + container_json(opcode) + ",\n  \"runtime_agent\": "@ + container_json(
        agent,
    ) + "\n}"@
}

fn push_json(v: &mut Vec<char>, s: &str)
    ensures
        final(v)@ == old(v)@ + json_string_literal(s@),
{
    let q = json_string(s);
    push_str(v, q.as_str());
}

fn push_container_json(v: &mut Vec<char>, info: &Option<ContainerInfo>)
    ensures
        final(v)@ == old(v)@ + container_json(*info),
{
    let ghost v0 = v@;
    match info {
        Some(i) => {
            push_str(v, "{\n    \"id\": ");
            push_json(v, i.id.as_str());
            push_str(v, ",\n    \"image\": ");
            push_json(v, i.image.as_str());
            push_str(v, ",\n    \"name\": ");
            push_json(v, i.name.as_str());
            push_str(v, ",\n    \"ports\": ");
            push_json(v, i.ports.as_str());
            push_str(v, ",\n    \"running\": ");
            if is_running(i.status.as_str()) {
                push_str(v, "true");
            } else {
                push_str(v, "false");
            }
            push_str(v, ",\n    \"status\": ");
            push_json(v, i.status.as_str());
            push_str(v, "\n  }");
        },
        None => push_str(v, "{\n    \"running\": false,\n    \"status\": \"not_found\"\n  }"),
    }
    assert(v@ =~= v0 + container_json(*info));
}

pub fn node_status_json(agent: &Option<ContainerInfo>, opcode: &Option<ContainerInfo>) -> (r: String)
    ensures
        r@ == node_status_json_text(*agent, *opcode),
{
    let mut v: Vec<char> = Vec::new();
    push_str(&mut v, "{\n  \"opcode_api\": ");
    push_container_json(&mut v, opcode);
    push_str(&mut v, ",\n  \"runtime_agent\": ");
    push_container_json(&mut v, agent);
    push_str(&mut v, "\n}");
    assert(v@ =~= node_status_json_text(*agent, *opcode));
    string_of(v.as_slice())
}

} // verus!
