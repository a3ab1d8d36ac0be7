//! `d1v expose`: public URLs for local ports through the runtime agent.
//! The requests are the caller's part; this holds the arguments, the
//! bindings, how they are shown, and the naming rules.
use crate::strs::{
    chars_of, contains_seq, contains_str, dec, has_prefix, is_ascii_alnum, is_ascii_alnum_char,
    push_all, push_dec, push_str, starts_with_str, string_of, strip_prefix, trim, trim_char,
    trim_end_char, trim_end_matches_char, trim_matches_char, trim_str, trim_ws, trim_start_ws,
    trim_end_ws, trim_start_char, is_ws,
};
use vstd::prelude::*;

verus! {

pub const DEFAULT_RUNTIME_AGENT_BASE: &'static str = "http://127.0.0.1:8080";

/// `d1v expose` subcommands.
#[derive(Debug)]
pub enum ExposeCommand {
    /// List active expose bindings
    List(ExposeListArgs),
    /// Close an expose binding
    Close(ExposeCloseArgs),
}

/// Arguments of `d1v expose`.
#[derive(Debug)]
pub struct ExposeArgs {
    /// Expose a local port through the active runtime agent
    pub port: Option<u16>,
    pub command: Option<ExposeCommand>,
    pub project_id: Option<String>,
    pub hostname: Option<String>,
    pub node_id: Option<String>,
    pub host_port: Option<u16>,
}

/// A port to expose.
#[derive(Debug, Clone)]
pub struct ExposePortArgs {
    pub port: u16,
    pub project_id: Option<String>,
    pub hostname: Option<String>,
    pub node_id: Option<String>,
    pub host_port: Option<u16>,
}

/// Filters of `d1v expose list`.
#[derive(Debug, Clone)]
pub struct ExposeListArgs {
    pub node_id: Option<String>,
    pub project_id: Option<String>,
    pub status: Option<String>,
}

/// Arguments of `d1v expose close`.
#[derive(Debug, Clone)]
pub struct ExposeCloseArgs {
    pub binding_id: String,
    pub reason: Option<String>,
}

/// A public URL bound to a local port.
#[derive(Debug, Clone)]
pub struct ExposeBinding {
    pub binding_id: String,
    pub node_id: String,
    pub lease_id: Option<String>,
    pub project_id: Option<String>,
    pub container_id: Option<String>,
    pub container_port: u16,
    pub host_port: Option<u16>,
    pub protocol: String,
    pub hostname: String,
    pub public_url: String,
    pub status: String,
    pub origin_mode: Option<String>,
    pub created_by: Option<String>,
}

/// Whether a failed request to the runtime agent means it is not there, so
/// the CLI relays the expose itself.
pub open spec fn agent_unreachable(message: Seq<char>) -> bool {
    contains_seq(message, "Connection refused"@) || contains_seq(message, "error sending request"@)
        || contains_seq(message, "tcp connect error"@) || contains_seq(
        message,
        "operation timed out"@,
    )
}

/// Fallback law: an error that names a refused connection, a failure to
/// send the request, a TCP connect error or a timeout means the agent is
/// unreachable, so the CLI relays the port itself; an error naming none of
/// these is the agent's own answer and is reported.
pub proof fn lemma_fallback_markers(message: Seq<char>)
    ensures
        contains_seq(message, "Connection refused"@) ==> agent_unreachable(message),
        contains_seq(message, "error sending request"@) ==> agent_unreachable(message),
        contains_seq(message, "tcp connect error"@) ==> agent_unreachable(message),
        contains_seq(message, "operation timed out"@) ==> agent_unreachable(message),
        !contains_seq(message, "Connection refused"@) && !contains_seq(
            message,
            "error sending request"@,
        ) && !contains_seq(message, "tcp connect error"@) && !contains_seq(
            message,
            "operation timed out"@,
        ) ==> !agent_unreachable(message),
{
}

pub fn should_fallback_to_cli_relay(error_message: &str) -> (r: bool)
    ensures
        r == agent_unreachable(error_message@),
{
    let m = chars_of(error_message);
    contains_str(m.as_slice(), "Connection refused") || contains_str(
        m.as_slice(),
        "error sending request",
    ) || contains_str(m.as_slice(), "tcp connect error") || contains_str(
        m.as_slice(),
        "operation timed out",
    )
}

/// The runtime agent's base URL: `D1V_RUNTIME_AGENT_BASE` unless blank,
/// else the default, without trailing slashes.
pub open spec fn agent_base(env_value: Option<Seq<char>>) -> Seq<char> {
    let raw = match env_value {
        Some(v) => if trim_ws(v).len() > 0 {
            v
        } else {
            DEFAULT_RUNTIME_AGENT_BASE@
        },
        None => DEFAULT_RUNTIME_AGENT_BASE@,
    };
    trim_end_char(raw, '/')
}

pub fn runtime_agent_base_url(env_value: Option<&str>) -> (r: String)
    ensures
        r@ == agent_base(
            match env_value {
                Some(v) => Some(v@),
                None => None,
            },
        ),
{
    let raw = match env_value {
        Some(v) => {
            if trim_str(v).len() > 0 {
                chars_of(v)
            } else {
                chars_of(DEFAULT_RUNTIME_AGENT_BASE)
            }
        },
        None => chars_of(DEFAULT_RUNTIME_AGENT_BASE),
    };
    let t = trim_end_matches_char(raw.as_slice(), '/');
    string_of(t.as_slice())
}

/// A control endpoint of the runtime agent.
pub fn control_url(base: &str, path: &str) -> (r: String)
    ensures
        r@ == base@ + path@,
{
    let mut v = chars_of(base);
    push_str(&mut v, path);
    string_of(v.as_slice())
}

/// The character a device id keeps: alphanumerics and `-`, anything else
/// becomes `-`.
pub open spec fn id_char(c: char) -> char {
    if is_ascii_alnum(c) || c == '-' {
        c
    } else {
        '-'
    }
}

pub open spec fn id_chars(s: Seq<char>) -> Seq<char> {
    s.map_values(|c: char| id_char(c))
}

/// The device id of the CLI's free expose device derived from a base
/// device id: kept when it already is one; else `cli-free-` and the id
/// without a `dev-` prefix, unusual characters replaced and hyphens at the
/// ends dropped; `cli-free-` and `fallback` when nothing is left.
pub open spec fn free_device_id(base: Seq<char>, fallback: Seq<char>) -> Seq<char> {
    let raw = trim_ws(base);
    if has_prefix(raw, "cli-free-"@) {
        raw
    } else {
        let suffix = match strip_prefix(raw, "dev-"@) {
            Some(s) => if trim_ws(s).len() > 0 {
                s
            } else {
                raw
            },
            None => raw,
        };
        let cleaned = trim_char(id_chars(suffix), '-');
        if cleaned.len() == 0 {
            "cli-free-"@ + fallback
        } else {
            "cli-free-"@ + cleaned
        }
    }
}

proof fn lemma_trim_start_ws_front(s: Seq<char>)
    ensures
        trim_start_ws(s).len() == 0 || !is_ws(trim_start_ws(s)[0]),
    decreases s.len(),
{
    if s.len() > 0 && is_ws(s[0]) {
        lemma_trim_start_ws_front(s.drop_first());
    }
}

proof fn lemma_trim_end_ws_prefix(s: Seq<char>)
    ensures
        trim_end_ws(s).len() <= s.len(),
        trim_end_ws(s) == s.subrange(0, trim_end_ws(s).len() as int),
        trim_end_ws(s).len() == 0 || !is_ws(trim_end_ws(s).last()),
    decreases s.len(),
{
    if s.len() > 0 && is_ws(s.last()) {
        lemma_trim_end_ws_prefix(s.drop_last());
        assert(s.drop_last().subrange(0, trim_end_ws(s).len() as int) =~= s.subrange(
            0,
            trim_end_ws(s).len() as int,
        ));
    } else {
        assert(s.subrange(0, s.len() as int) =~= s);
    }
}

proof fn lemma_trim_start_char_suffix(s: Seq<char>, c: char)
    ensures
        trim_start_char(s, c).len() <= s.len(),
        trim_start_char(s, c) == s.skip(s.len() - trim_start_char(s, c).len()),
        trim_start_char(s, c).len() == 0 || trim_start_char(s, c)[0] != c,
    decreases s.len(),
{
    if s.len() > 0 && s[0] == c {
        lemma_trim_start_char_suffix(s.drop_first(), c);
        assert(s.drop_first().skip(s.drop_first().len() - trim_start_char(s, c).len()) =~= s.skip(
            s.len() - trim_start_char(s, c).len(),
        ));
    } else {
        assert(s.skip(0) =~= s);
    }
}

proof fn lemma_trim_end_char_prefix(s: Seq<char>, c: char)
    ensures
        trim_end_char(s, c).len() <= s.len(),
        trim_end_char(s, c) == s.subrange(0, trim_end_char(s, c).len() as int),
        trim_end_char(s, c).len() == 0 || trim_end_char(s, c).last() != c,
    decreases s.len(),
{
    if s.len() > 0 && s.last() == c {
        lemma_trim_end_char_prefix(s.drop_last(), c);
        assert(s.drop_last().subrange(0, trim_end_char(s, c).len() as int) =~= s.subrange(
            0,
            trim_end_char(s, c).len() as int,
        ));
    } else {
        assert(s.subrange(0, s.len() as int) =~= s);
    }
}

/// Text with no whitespace at either end is its own trim.
proof fn lemma_trim_ws_keeps(s: Seq<char>)
    requires
        s.len() == 0 || (!is_ws(s[0]) && !is_ws(s.last())),
    ensures
        trim_ws(s) == s,
{
}

/// Trimmed text has no whitespace at either end.
proof fn lemma_trim_ws_ends(s: Seq<char>)
    ensures
        trim_ws(s).len() == 0 || (!is_ws(trim_ws(s)[0]) && !is_ws(trim_ws(s).last())),
{
    let t = trim_start_ws(s);
    lemma_trim_start_ws_front(s);
    lemma_trim_end_ws_prefix(t);
    if trim_ws(s).len() > 0 {
        assert(trim_ws(s)[0] == t[0]);
    }
}

/// What is left of a base id after dropping unusual characters and outer
/// hyphens: ASCII letters, digits and hyphens, not starting or ending with
/// a hyphen.
pub open spec fn clean_id_part(p: Seq<char>) -> bool {
    &&& p.len() > 0
    &&& forall|i: int| 0 <= i < p.len() ==> #[trigger] is_ascii_alnum(p[i]) || p[i] == '-'
    &&& p[0] != '-'
    &&& p.last() != '-'
}

proof fn lemma_cleaned(s: Seq<char>)
    ensures
        trim_char(id_chars(s), '-').len() == 0 || clean_id_part(trim_char(id_chars(s), '-')),
{
    let m = id_chars(s);
    let t = trim_start_char(m, '-');
    let u = trim_end_char(t, '-');
    lemma_trim_start_char_suffix(m, '-');
    lemma_trim_end_char_prefix(t, '-');
    if u.len() > 0 {
        let k = m.len() - t.len();
        assert forall|i: int| 0 <= i < u.len() implies #[trigger] is_ascii_alnum(u[i]) || u[i]
            == '-' by {
            assert(u[i] == t[i]);
            assert(t[i] == m[k + i]);
        }
        assert(u[0] == t[0]);
    }
}

/// The free expose id is `cli-free-` and a clean part of the base id, or
/// `fallback` when nothing of the base id is left; a base id that already
/// is a free expose id (once trimmed) is kept.
pub proof fn lemma_free_device_id_shape(base: Seq<char>, fallback: Seq<char>)
    ensures
        has_prefix(free_device_id(base, fallback), "cli-free-"@),
        has_prefix(trim_ws(base), "cli-free-"@) ==> free_device_id(base, fallback) == trim_ws(base),
        !has_prefix(trim_ws(base), "cli-free-"@) ==> {
            let part = free_device_id(base, fallback).skip(9);
            part == fallback || clean_id_part(part)
        },
{
    reveal_strlit("cli-free-");
    reveal_strlit("dev-");
    let raw = trim_ws(base);
    if !has_prefix(raw, "cli-free-"@) {
        let suffix = match strip_prefix(raw, "dev-"@) {
            Some(s) => if trim_ws(s).len() > 0 {
                s
            } else {
                raw
            },
            None => raw,
        };
        lemma_cleaned(suffix);
        let r = free_device_id(base, fallback);
        assert(r.subrange(0, 9) =~= "cli-free-"@);
        let cleaned = trim_char(id_chars(suffix), '-');
        if cleaned.len() == 0 {
            assert(r.skip(9) =~= fallback);
        } else {
            assert(r.skip(9) =~= cleaned);
        }
    }
}

/// A free expose id is derived once: deriving again from it, with any
/// fallback, gives it back. This needs a fallback without whitespace at
/// its ends when the fallback is what the id ends with.
pub proof fn lemma_free_device_id_stable(base: Seq<char>, fallback: Seq<char>, other: Seq<char>)
    requires
        free_device_id(base, fallback) == "cli-free-"@ + fallback ==> trim_ws(fallback) == fallback,
    ensures
        free_device_id(free_device_id(base, fallback), other) == free_device_id(base, fallback),
{
    reveal_strlit("cli-free-");
    let r = free_device_id(base, fallback);
    lemma_free_device_id_shape(base, fallback);
    lemma_trim_ws_ends(base);
    if has_prefix(trim_ws(base), "cli-free-"@) {
        lemma_trim_ws_keeps(r);
    } else {
        let part = r.skip(9);
        assert(r =~= "cli-free-"@ + part);
        if part == fallback {
            assert(r == "cli-free-"@ + fallback);
            lemma_trim_ws_ends(fallback);
        } else {
            assert(is_ascii_alnum(part[part.len() - 1]) || part[part.len() - 1] == '-');
        }
        if part.len() > 0 {
            assert(r.last() == part.last());
        } else {
            assert(r.last() == '-');
        }
        assert(r[0] == 'c');
        lemma_trim_ws_keeps(r);
    }
}

/// The free expose device id (see [`free_device_id`]); `fallback` is a
/// fresh unique suffix for when the base id yields nothing.
pub fn cli_free_device_id(base_device_id: &str, fallback: &str) -> (r: String)
    ensures
        r@ == free_device_id(base_device_id@, fallback@),
{
    let raw = trim_str(base_device_id);
    if starts_with_str(raw.as_slice(), "cli-free-") {
        return string_of(raw.as_slice());
    }
    let dev = chars_of("dev-");
    proof {
        reveal_strlit("dev-");
    }
    assert(dev@.len() == 4);
    let suffix: Vec<char> = if crate::strs::starts_with(raw.as_slice(), dev.as_slice()) {
        let s = crate::strs::slice_vec(raw.as_slice(), 4, raw.len());
        assert(s@ =~= raw@.skip(4));
        proof {
            reveal_strlit("dev-");
        }
        if crate::strs::trim(s.as_slice()).len() > 0 {
            s
        } else {
            crate::strs::slice_vec(raw.as_slice(), 0, raw.len())
        }
    } else {
        crate::strs::slice_vec(raw.as_slice(), 0, raw.len())
    };
    proof {
        reveal_strlit("dev-");
        assert(raw@.subrange(0, raw@.len() as int) =~= raw@);
    }
    let mut mapped: Vec<char> = Vec::new();
    let mut i: usize = 0;
    while i < suffix.len()
        invariant
            i <= suffix@.len(),
            mapped@ == id_chars(suffix@.subrange(0, i as int)),
        decreases suffix@.len() - i,
    {
        let c = suffix[i];
        mapped.push(if is_ascii_alnum_char(c) || c == '-' { c } else { '-' });
        assert(mapped@ =~= id_chars(suffix@.subrange(0, i + 1)));
        i = i + 1;
    }
    assert(suffix@.subrange(0, suffix@.len() as int) =~= suffix@);
    let cleaned = trim_matches_char(mapped.as_slice(), '-');
    let mut out: Vec<char> = Vec::new();
    push_str(&mut out, "cli-free-");
    if cleaned.len() == 0 {
        push_str(&mut out, fallback);
    } else {
        push_all(&mut out, cleaned.as_slice());
    }
    string_of(out.as_slice())
}

/// The name of the free expose device: with the host name when it is set.
pub fn default_cli_free_device_name(hostname: Option<&str>) -> (r: String)
    ensures
        match hostname {
            Some(h) if trim_ws(h@).len() > 0 => r@ == "CLI free expose ("@ + h@ + ")"@,
            _ => r@ == "CLI free expose"@,
        },
{
    match hostname {
        Some(h) => {
            if trim_str(h).len() > 0 {
                let mut v: Vec<char> = Vec::new();
                push_str(&mut v, "CLI free expose (");
                push_str(&mut v, h);
                push_str(&mut v, ")");
                return string_of(v.as_slice());
            }
        },
        None => {},
    }
    "CLI free expose".to_owned()
}

} // verus!

verus! {

pub open spec fn jstr(s: Seq<char>) -> Seq<char> {
    crate::relay::json_string_literal(s)
}

pub open spec fn member_str(key: Seq<char>, o: Option<String>) -> Seq<char> {
    match o {
        Some(s) => ",\""@ + key + "\":"@ + jstr(s@),
        None => Seq::empty(),
    }
}

fn push_member_str(v: &mut Vec<char>, key: &str, o: &Option<String>)
    ensures
        final(v)@ == old(v)@ + member_str(key@, *o),
{
    match o {
        Some(s) => {
            push_str(v, ",\"");
            push_str(v, key);
            push_str(v, "\":");
            let q = crate::relay::json_string(s.as_str());
            push_str(v, q.as_str());
        },
        None => {
            assert(old(v)@ + Seq::<char>::empty() =~= old(v)@);
        },
    }
}

/// The request the runtime agent gets to expose a port: the port over
/// http as this tool, with the project, host name, node and host port
/// when given; keys in `serde_json`'s order.
pub open spec fn node_expose_json(a: ExposePortArgs) -> Seq<char> {
    "{\"container_port\":"@ + dec(a.port as nat) + ",\"created_by\":\"d1v-cli\""@ + match a.host_port {
        Some(p) => ",\"host_port\":"@ + dec(p as nat),
        None => Seq::empty(),
    } + member_str("hostname"@, a.hostname) + member_str("node_id"@, a.node_id) + member_str(
        "project_id"@,
        a.project_id,
    ) + ",\"protocol\":\"http\"}"@
}

pub fn node_expose_body(a: &ExposePortArgs) -> (r: String)
    ensures
        r@ == node_expose_json(*a),
{
    let mut v: Vec<char> = Vec::new();
    push_str(&mut v, "{\"container_port\":");
    crate::strs::push_dec(&mut v, a.port as u64);
    push_str(&mut v, ",\"created_by\":\"d1v-cli\"");
    let ghost before = v@;
    match a.host_port {
        Some(p) => {
            push_str(&mut v, ",\"host_port\":");
            crate::strs::push_dec(&mut v, p as u64);
        },
        None => {
            assert(before + Seq::<char>::empty() =~= before);
        },
    }
    push_member_str(&mut v, "hostname", &a.hostname);
    push_member_str(&mut v, "node_id", &a.node_id);
    push_member_str(&mut v, "project_id", &a.project_id);
    push_str(&mut v, ",\"protocol\":\"http\"}");
    assert(v@ =~= node_expose_json(*a));
    string_of(v.as_slice())
}

/// The request that exposes a port through this machine as a customer
/// node: the device as the container, the port on both sides, the node
/// named after the device, the project and host name when given.
pub open spec fn cli_expose_json(
    device_id: Seq<char>,
    port: u16,
    project_id: Option<String>,
    hostname: Option<String>,
) -> Seq<char> {
    "{\"container_id\":"@ + jstr(device_id) + ",\"container_port\":"@ + dec(port as nat)
        + ",\"host_port\":"@ + dec(port as nat) + member_str("hostname"@, hostname) + ",\"node_id\":"@
        + jstr("customer-"@ + device_id) + member_str("project_id"@, project_id)
        + ",\"protocol\":\"http\"}"@
}

pub fn cli_expose_body(device_id: &str, port: u16, project_id: &Option<String>, hostname: &Option<String>) -> (r:
    String)
    ensures
        r@ == cli_expose_json(device_id@, port, *project_id, *hostname),
{
    let mut v: Vec<char> = Vec::new();
    push_str(&mut v, "{\"container_id\":");
    let q = crate::relay::json_string(device_id);
    push_str(&mut v, q.as_str());
    push_str(&mut v, ",\"container_port\":");
    crate::strs::push_dec(&mut v, port as u64);
    push_str(&mut v, ",\"host_port\":");
    crate::strs::push_dec(&mut v, port as u64);
    push_member_str(&mut v, "hostname", hostname);
    push_str(&mut v, ",\"node_id\":");
    let node = crate::customer::customer_node_id(device_id);
    let n = crate::relay::json_string(node.as_str());
    push_str(&mut v, n.as_str());
    push_member_str(&mut v, "project_id", project_id);
    push_str(&mut v, ",\"protocol\":\"http\"}");
    assert(v@ =~= cli_expose_json(device_id@, port, *project_id, *hostname));
    string_of(v.as_slice())
}

/// The agent configuration of a CLI relay for a local port: the device
/// turned into its free-expose twin and named so, its runtime the port on
/// this machine; the home and bindings kept.
pub fn cli_relay_config(base: crate::agent::AgentConfig, port: u16, fallback: &str, hostname: Option<&str>) -> (r:
    crate::agent::AgentConfig)
    ensures
        r.device_id@ == free_device_id(base.device_id@, fallback@),
        r.device_name@ == (match hostname {
            Some(h) => if trim_ws(h@).len() > 0 {
                "CLI free expose ("@ + h@ + ")"@
            } else {
                "CLI free expose"@
            },
            None => "CLI free expose"@,
        }),
        r.opcode_base_url@ == "http://127.0.0.1:"@ + dec(port as nat),
        r.home_root == base.home_root,
        r.project_bindings == base.project_bindings,
{
    let mut url: Vec<char> = Vec::new();
    push_str(&mut url, "http://127.0.0.1:");
    crate::strs::push_dec(&mut url, port as u64);
    crate::agent::AgentConfig {
        device_id: cli_free_device_id(base.device_id.as_str(), fallback),
        device_name: default_cli_free_device_name(hostname),
        home_root: base.home_root,
        opcode_base_url: string_of(url.as_slice()),
        project_bindings: base.project_bindings,
    }
}

/// The port `expose` opens, or the error when none was given.
pub fn expose_port(args: &ExposeArgs) -> (r: Result<u16, String>)
    ensures
        match args.port {
            Some(p) => r == Ok::<u16, String>(p),
            None => r matches Err(m) && m@ == "missing expose port"@,
        },
{
    match args.port {
        Some(p) => Ok(p),
        None => Err("missing expose port".to_owned()),
    }
}

} // verus!
