//! The device as a customer runtime node of the platform: its node id, the
//! JSON bodies the agent sends to register, pair, heartbeat and expose
//! ports, and which detected ports still need an expose binding.
//!
//! Every body is a JSON object with its keys in lexicographic order, the
//! strings written by `serde_json`.
use crate::agent::{advertised_terminal_url, verified_terminal_base_url, AgentConfig, OpcodeRuntimeCapabilities};
use crate::relay::{json_string, json_string_literal, opt_view};
use crate::strs::{chars_of, dec, push_dec, push_str, seq_eq, string_of};
use vstd::prelude::*;

verus! {

/// The runtime node id of a device.
pub open spec fn customer_node(device_id: Seq<char>) -> Seq<char> {
    "customer-"@ + device_id
}

pub fn customer_node_id(device_id: &str) -> (r: String)
    ensures
        r@ == customer_node(device_id@),
{
    let mut v: Vec<char> = Vec::new();
    push_str(&mut v, "customer-");
    push_str(&mut v, device_id);
    string_of(v.as_slice())
}

fn push_json(v: &mut Vec<char>, s: &str)
    ensures
        final(v)@ == old(v)@ + json_string_literal(s@),
{
    let q = json_string(s);
    push_str(v, q.as_str());
}

/// The capabilities a node advertises: the runtime, the relay transport,
/// the device, and the terminal only when its URL is on this machine.
pub open spec fn capabilities_json(device_id: Seq<char>, terminal: Option<Seq<char>>) -> Seq<char> {
    "{\"device_id\":"@ + json_string_literal(device_id) + ",\"runtime\":\"opcode-api\""@ + match terminal {
        Some(u) => ",\"supports_terminal\":true,\"terminal_base_url\":"@ + json_string_literal(u),
        None => seq![],
    } + ",\"transport\":\"relay\"}"@
}

fn push_capabilities(v: &mut Vec<char>, config: &AgentConfig, runtime: &OpcodeRuntimeCapabilities)
    ensures
        final(v)@ == old(v)@ + capabilities_json(
            config.device_id@,
            advertised_terminal_url(runtime.supports_terminal, opt_view(runtime.terminal_base_url)),
        ),
{
    let ghost v0 = v@;
    push_str(v, "{\"device_id\":");
    push_json(v, config.device_id.as_str());
    push_str(v, ",\"runtime\":\"opcode-api\"");
    let ghost mid = v@;
    let terminal = verified_terminal_base_url(runtime);
    match &terminal {
        Some(u) => {
            push_str(v, ",\"supports_terminal\":true,\"terminal_base_url\":");
            push_json(v, u.as_str());
        },
        None => {},
    }
    push_str(v, ",\"transport\":\"relay\"}");
    assert(opt_view(runtime.terminal_base_url) == match runtime.terminal_base_url {
        Some(u) => Some(u@),
        None => None,
    });
    assert(v@ =~= v0 + capabilities_json(
        config.device_id@,
        advertised_terminal_url(runtime.supports_terminal, opt_view(runtime.terminal_base_url)),
    ));
}

/// The capabilities object of a node registration, as JSON text.
pub fn runtime_node_capabilities(config: &AgentConfig, runtime: &OpcodeRuntimeCapabilities) -> (r:
    String)
    ensures
        r@ == capabilities_json(
            config.device_id@,
            advertised_terminal_url(runtime.supports_terminal, opt_view(runtime.terminal_base_url)),
        ),
{
    let mut v: Vec<char> = Vec::new();
    push_capabilities(&mut v, config, runtime);
    assert(v@ =~= capabilities_json(
        config.device_id@,
        advertised_terminal_url(runtime.supports_terminal, opt_view(runtime.terminal_base_url)),
    ));
    string_of(v.as_slice())
}

/// The body that registers the device as a one-slot local node reached
/// through the reverse relay.
pub open spec fn registration_json(device_id: Seq<char>, terminal: Option<Seq<char>>) -> Seq<char> {
    "{\"capabilities\":"@ + capabilities_json(device_id, terminal)
        + ",\"cpu_cores\":0,\"disk_gb\":0,\"ingress_mode\":\"reverse_relay\",\"memory_mb\":0,\"node_id\":"@
        + json_string_literal(customer_node(device_id))
        + ",\"region\":\"local\",\"total_slots\":1,\"version\":\"dev\"}"@
}

pub fn registration_body(config: &AgentConfig, runtime: &OpcodeRuntimeCapabilities) -> (r: String)
    ensures
        r@ == registration_json(
            config.device_id@,
            advertised_terminal_url(runtime.supports_terminal, opt_view(runtime.terminal_base_url)),
        ),
{
    let mut v: Vec<char> = Vec::new();
    push_str(&mut v, "{\"capabilities\":");
    push_capabilities(&mut v, config, runtime);
    push_str(
        &mut v,
        ",\"cpu_cores\":0,\"disk_gb\":0,\"ingress_mode\":\"reverse_relay\",\"memory_mb\":0,\"node_id\":",
    );
    let node = customer_node_id(config.device_id.as_str());
    push_json(&mut v, node.as_str());
    push_str(&mut v, ",\"region\":\"local\",\"total_slots\":1,\"version\":\"dev\"}");
    assert(v@ =~= registration_json(
        config.device_id@,
        advertised_terminal_url(runtime.supports_terminal, opt_view(runtime.terminal_base_url)),
    ));
    string_of(v.as_slice())
}

/// The heartbeat of an online node with no slot in use.
pub open spec fn heartbeat_json(device_id: Seq<char>) -> Seq<char> {
    "{\"node_id\":"@ + json_string_literal(customer_node(device_id))
        + ",\"status\":\"online\",\"used_slots\":0}"@
}

pub fn heartbeat_body(device_id: &str) -> (r: String)
    ensures
        r@ == heartbeat_json(device_id@),
{
    let mut v: Vec<char> = Vec::new();
    push_str(&mut v, "{\"node_id\":");
    let node = customer_node_id(device_id);
    push_json(&mut v, node.as_str());
    push_str(&mut v, ",\"status\":\"online\",\"used_slots\":0}");
    assert(v@ =~= heartbeat_json(device_id@));
    string_of(v.as_slice())
}

/// The body that exposes a local HTTP port of the device under the same
/// port number.
pub open spec fn expose_json(device_id: Seq<char>, port: u16) -> Seq<char> {
    "{\"container_id\":"@ + json_string_literal(device_id) + ",\"container_port\":"@ + dec(
        port as nat,
    ) + ",\"host_port\":"@ + dec(port as nat) + ",\"node_id\":"@ + json_string_literal(
        customer_node(device_id),
    ) + ",\"protocol\":\"http\"}"@
}

pub fn expose_body(device_id: &str, port: u16) -> (r: String)
    ensures
        r@ == expose_json(device_id@, port),
{
    let mut v: Vec<char> = Vec::new();
    push_str(&mut v, "{\"container_id\":");
    push_json(&mut v, device_id);
    push_str(&mut v, ",\"container_port\":");
    push_dec(&mut v, port as u64);
    push_str(&mut v, ",\"host_port\":");
    push_dec(&mut v, port as u64);
    push_str(&mut v, ",\"node_id\":");
    let node = customer_node_id(device_id);
    push_json(&mut v, node.as_str());
    push_str(&mut v, ",\"protocol\":\"http\"}");
    assert(v@ =~= expose_json(device_id@, port));
    string_of(v.as_slice())
}

/// The body that completes pairing: the code, the device, its name and
/// platform, a public key naming the device, and its home (or `null`).
pub open spec fn pairing_json(
    code: Seq<char>,
    device_id: Seq<char>,
    name: Seq<char>,
    os: Seq<char>,
    home_root: Option<Seq<char>>,
) -> Seq<char> {
    let home = match home_root {
        Some(h) => json_string_literal(h),
        None => "null"@,
    };
    "{\"capabilities\":{\"home_root\":"@ + home
        + ",\"runtime\":\"opcode-api\",\"transport\":\"relay\"},\"device_id\":"@
        + json_string_literal(device_id) + ",\"name\":"@ + json_string_literal(name)
        + ",\"os_type\":"@ + json_string_literal(os) + ",\"pairing_code\":"@ + json_string_literal(
        code,
    ) + ",\"public_key\":"@ + json_string_literal("local-agent-"@ + device_id)
        + ",\"workspace_root\":"@ + home + "}"@
}

fn push_home(v: &mut Vec<char>, home_root: &Option<String>)
    ensures
        final(v)@ == old(v)@ + match opt_view(*home_root) {
            Some(h) => json_string_literal(h),
            None => "null"@,
        },
{
    match home_root {
        Some(h) => push_json(v, h.as_str()),
        None => push_str(v, "null"),
    }
}

pub fn pairing_body(code: &str, config: &AgentConfig, os: &str) -> (r: String)
    ensures
        r@ == pairing_json(
            code@,
            config.device_id@,
            config.device_name@,
            os@,
            opt_view(config.home_root),
        ),
{
    let mut v: Vec<char> = Vec::new();
    push_str(&mut v, "{\"capabilities\":{\"home_root\":");
    push_home(&mut v, &config.home_root);
    push_str(&mut v, ",\"runtime\":\"opcode-api\",\"transport\":\"relay\"},\"device_id\":");
    push_json(&mut v, config.device_id.as_str());
    push_str(&mut v, ",\"name\":");
    push_json(&mut v, config.device_name.as_str());
    push_str(&mut v, ",\"os_type\":");
    push_json(&mut v, os);
    push_str(&mut v, ",\"pairing_code\":");
    push_json(&mut v, code);
    push_str(&mut v, ",\"public_key\":");
    let mut key: Vec<char> = Vec::new();
    push_str(&mut key, "local-agent-");
    push_str(&mut key, config.device_id.as_str());
    let key = string_of(key.as_slice());
    push_json(&mut v, key.as_str());
    push_str(&mut v, ",\"workspace_root\":");
    push_home(&mut v, &config.home_root);
    push_str(&mut v, "}");
    assert(key@ =~= "local-agent-"@ + config.device_id@);
    assert(v@ =~= pairing_json(
        code@,
        config.device_id@,
        config.device_name@,
        os@,
        opt_view(config.home_root),
    ));
    string_of(v.as_slice())
}

/// An expose binding the platform already has for the node: its container
/// port and status, where they are given as a number and a string.
#[derive(Debug, Clone)]
pub struct ExposeRow {
    pub container_port: Option<u64>,
    pub status: Option<String>,
}

/// A binding covers a port when its container port, read as a number
/// (0 when missing) and cut to 16 bits, is that port and it is pending or
/// active.
pub open spec fn row_covers(row: ExposeRow, port: u16) -> bool {
    &&& (match row.container_port {
        Some(p) => p,
        None => 0,
    }) % 65536 == port
    &&& row.status matches Some(s) && (s@ == "pending"@ || s@ == "active"@)
}

pub open spec fn covered(rows: Seq<ExposeRow>, port: u16) -> bool {
    exists|i: int| 0 <= i < rows.len() && row_covers(#[trigger] rows[i], port)
}

/// The detected ports, in order, that no binding covers yet.
pub open spec fn ports_needing_expose(ports: Seq<u16>, rows: Seq<ExposeRow>) -> Seq<u16>
    decreases ports.len(),
{
    if ports.len() == 0 {
        seq![]
    } else {
        let rest = ports_needing_expose(ports.drop_last(), rows);
        if covered(rows, ports.last()) {
            rest
        } else {
            rest.push(ports.last())
        }
    }
}

fn row_covers_exec(row: &ExposeRow, port: u16) -> (r: bool)
    ensures
        r == row_covers(*row, port),
{
    let p: u64 = match row.container_port {
        Some(p) => p,
        None => 0,
    };
    if p % 65536 != port as u64 {
        return false;
    }
    match &row.status {
        Some(s) => {
            let c = chars_of(s.as_str());
            let pending = chars_of("pending");
            let active = chars_of("active");
            seq_eq(c.as_slice(), pending.as_slice()) || seq_eq(c.as_slice(), active.as_slice())
        },
        None => false,
    }
}

fn covered_exec(rows: &Vec<ExposeRow>, port: u16) -> (r: bool)
    ensures
        r == covered(rows@, port),
{
    let mut i: usize = 0;
    while i < rows.len()
        invariant
            i <= rows@.len(),
            forall|j: int| 0 <= j < i ==> !row_covers(#[trigger] rows@[j], port),
        decreases rows@.len() - i,
    {
        if row_covers_exec(&rows[i], port) {
            return true;
        }
        i = i + 1;
    }
    false
}

/// Which detected ports still need an expose binding.
pub fn ports_to_expose(ports: &Vec<u16>, rows: &Vec<ExposeRow>) -> (r: Vec<u16>)
    ensures
        r@ == ports_needing_expose(ports@, rows@),
{
    let mut out: Vec<u16> = Vec::new();
    let mut i: usize = 0;
    while i < ports.len()
        invariant
            i <= ports@.len(),
            out@ == ports_needing_expose(ports@.take(i as int), rows@),
        decreases ports@.len() - i,
    {
        assert(ports@.take(i + 1).drop_last() =~= ports@.take(i as int));
        if !covered_exec(rows, ports[i]) {
            out.push(ports[i]);
        }
        i = i + 1;
    }
    assert(ports@.take(ports@.len() as int) =~= ports@);
    out
}

} // verus!

verus! {

/// Auto-expose never asks again for a port a pending or active binding
/// covers, and asks for every detected port that none covers.
pub proof fn lemma_expose_only_uncovered(ports: Seq<u16>, rows: Seq<ExposeRow>)
    ensures
        forall|k: int|
            0 <= k < ports_needing_expose(ports, rows).len() ==> !covered(
                rows,
                #[trigger] ports_needing_expose(ports, rows)[k],
            ) && ports.contains(ports_needing_expose(ports, rows)[k]),
        forall|i: int|
            0 <= i < ports.len() && !covered(rows, #[trigger] ports[i]) ==> ports_needing_expose(
                ports,
                rows,
            ).contains(ports[i]),
    decreases ports.len(),
{
    if ports.len() > 0 {
        let prev = ports.drop_last();
        lemma_expose_only_uncovered(prev, rows);
        let r = ports_needing_expose(ports, rows);
        let rp = ports_needing_expose(prev, rows);
        assert forall|k: int| 0 <= k < r.len() implies !covered(rows, #[trigger] r[k]) && ports.contains(r[k]) by {
            if k < rp.len() {
                assert(r[k] == rp[k]);
                let j = choose|j: int| 0 <= j < prev.len() && prev[j] == rp[k];
                assert(ports[j] == prev[j]);
            } else {
                assert(ports[ports.len() - 1] == ports.last());
            }
        }
        assert forall|i: int| 0 <= i < ports.len() && !covered(rows, #[trigger] ports[i]) implies r.contains(
            ports[i],
        ) by {
            if i < prev.len() {
                assert(prev[i] == ports[i]);
                let k = choose|k: int| 0 <= k < rp.len() && rp[k] == prev[i];
                assert(r[k] == rp[k]);
            } else {
                assert(r[r.len() - 1] == ports.last());
            }
        }
    }
}

} // verus!
