//! The customer runtime agent: its arguments, configuration, what it
//! accepts as terminal bootstrap and capabilities, and which local ports it
//! exposes. Talking to the platform and to `opcode-api` is the caller's
//! part.
use crate::skill::{join_path, path_join};
use crate::strs::{
    chars_of, has_prefix, last_index, lemma_last_index, lines, lines_of, lower_seq, parse_u16,
    parse_u16_chars, push_all, push_str, seq_eq, slice_vec, split, split_char, string_of, to_lower,
    trim, trim_end_char, trim_end_matches_char, trim_str, trim_ws,
};
use crate::node::ingress::piece_views;
use vstd::prelude::*;

verus! {

pub const DEFAULT_HOME_DIR: &'static str = ".d1v/agent/home";

pub const DEFAULT_OPCODE_HEALTH: &'static str = "http://127.0.0.1:9191/health";

pub const DEFAULT_OPCODE_BASE: &'static str = "http://127.0.0.1:9191";

/// Ports tried for automatic exposure unless configured otherwise.
pub open spec fn default_candidate_ports() -> Seq<u16> {
    seq![3000u16, 4173u16, 5173u16, 8000u16, 8787u16, 9000u16]
}

pub fn default_auto_expose_candidate_ports() -> (r: Vec<u16>)
    ensures
        r@ == default_candidate_ports(),
{
    let mut v = Vec::new();
    v.push(3000);
    v.push(4173);
    v.push(5173);
    v.push(8000);
    v.push(8787);
    v.push(9000);
    assert(v@ =~= default_candidate_ports());
    v
}

/// `d1v agent` subcommands.
#[derive(Debug)]
pub enum AgentCommand {
    InitHome(InitHomeArgs),
    Pair(PairArgs),
    Start(StartArgs),
    Status,
    Project { command: AgentProjectCommand },
    InitRuntime(InitRuntimeArgs),
}

/// `d1v agent project` subcommands.
#[derive(Debug)]
pub enum AgentProjectCommand {
    Create(ProjectCreateArgs),
    Import(ProjectImportArgs),
    Bind(ProjectBindArgs),
}

#[derive(Debug, Clone)]
pub struct InitHomeArgs {
    pub path: String,
    pub name: Option<String>,
    pub device_id: Option<String>,
}

#[derive(Debug, Clone)]
pub struct PairArgs {
    pub code: Option<String>,
    pub name: Option<String>,
}

#[derive(Debug, Clone)]
pub struct StartArgs {
    pub opcode_bin: Option<String>,
}

#[derive(Debug, Clone)]
pub struct ProjectCreateArgs {
    pub project_id: String,
    pub name: String,
    pub path: Option<String>,
}

#[derive(Debug, Clone)]
pub struct ProjectImportArgs {
    pub path: String,
    pub project_id: Option<String>,
}

#[derive(Debug, Clone)]
pub struct ProjectBindArgs {
    pub project_id: String,
    pub path: String,
}

#[derive(Debug, Clone)]
pub struct InitRuntimeArgs {
    pub project_id: String,
    pub path: String,
    pub name: Option<String>,
    pub device_id: Option<String>,
}

/// A project bound to a workspace directory.
#[derive(Debug, Clone)]
pub struct ProjectBinding {
    pub project_id: String,
    pub workspace_root: String,
}

/// The agent's saved configuration.
#[derive(Debug, Clone)]
pub struct AgentConfig {
    pub device_id: String,
    pub device_name: String,
    pub home_root: Option<String>,
    pub opcode_base_url: String,
    pub project_bindings: Vec<ProjectBinding>,
}

pub open spec fn binding_views(b: Seq<ProjectBinding>) -> Seq<(Seq<char>, Seq<char>)> {
    b.map_values(|x: ProjectBinding| (x.project_id@, x.workspace_root@))
}

/// The bindings without those of one project.
pub open spec fn without_project(b: Seq<(Seq<char>, Seq<char>)>, project_id: Seq<char>) -> Seq<
    (Seq<char>, Seq<char>),
>
    decreases b.len(),
{
    if b.len() == 0 {
        b
    } else if b.last().0 == project_id {
        without_project(b.drop_last(), project_id)
    } else {
        without_project(b.drop_last(), project_id).push(b.last())
    }
}

/// Binds a project to a workspace: any earlier binding of the project is
/// dropped and the new one goes last.
pub fn upsert_binding(config: &mut AgentConfig, project_id: &str, workspace_root: &str)
    ensures
        binding_views(final(config).project_bindings@) == without_project(
            binding_views(old(config).project_bindings@),
            project_id@,
        ).push((project_id@, workspace_root@)),
        final(config).device_id == old(config).device_id,
        final(config).device_name == old(config).device_name,
        final(config).home_root == old(config).home_root,
        final(config).opcode_base_url == old(config).opcode_base_url,
{
    let ghost bs = binding_views(config.project_bindings@);
    let mut kept: Vec<ProjectBinding> = Vec::new();
    let pid = chars_of(project_id);
    let mut i: usize = 0;
    while i < config.project_bindings.len()
        invariant
            i <= config.project_bindings@.len(),
            bs == binding_views(config.project_bindings@),
            pid@ == project_id@,
            binding_views(kept@) == without_project(bs.subrange(0, i as int), project_id@),
        decreases config.project_bindings@.len() - i,
    {
        proof {
            let sub1 = bs.subrange(0, i + 1);
            assert(sub1.drop_last() =~= bs.subrange(0, i as int));
            assert(sub1.last() == (
                config.project_bindings@[i as int].project_id@,
                config.project_bindings@[i as int].workspace_root@,
            ));
        }
        let b = &config.project_bindings[i];
        if !seq_eq(chars_of(b.project_id.as_str()).as_slice(), pid.as_slice()) {
            let ghost before = kept@;
            let c = ProjectBinding {
                project_id: b.project_id.clone(),
                workspace_root: b.workspace_root.clone(),
            };
            kept.push(c);
            assert(binding_views(kept@) =~= binding_views(before).push(
                (b.project_id@, b.workspace_root@),
            ));
        }
        i = i + 1;
    }
    assert(bs.subrange(0, bs.len() as int) =~= bs);
    let ghost before = kept@;
    kept.push(
        ProjectBinding { project_id: project_id.to_owned(), workspace_root: workspace_root.to_owned() },
    );
    assert(binding_views(kept@) =~= binding_views(before).push((project_id@, workspace_root@)));
    config.project_bindings = kept;
}

/// Text with each `\n` escape (backslash, `n`) turned into a newline.
pub open spec fn unescape_newlines(s: Seq<char>) -> Seq<char>
    decreases s.len(),
{
    if s.len() == 0 {
        s
    } else if s.len() >= 2 && s[0] == '\u{5c}' && s[1] == 'n' {
        seq!['\n'] + unescape_newlines(s.skip(2))
    } else {
        seq![s[0]] + unescape_newlines(s.drop_first())
    }
}

fn unescape_newlines_exec(s: &[char]) -> (r: Vec<char>)
    ensures
        r@ == unescape_newlines(s@),
{
    let mut out: Vec<char> = Vec::new();
    let mut i: usize = 0;
    assert(s@.skip(0) =~= s@);
    while i < s.len()
        invariant
            i <= s@.len(),
            out@ + unescape_newlines(s@.skip(i as int)) == unescape_newlines(s@),
        decreases s@.len() - i,
    {
        let ghost rest = s@.skip(i as int);
        if i + 1 < s.len() && s[i] == '\u{5c}' && s[i + 1] == 'n' {
            out.push('\n');
            assert(rest.skip(2) =~= s@.skip(i + 2));
            assert(out@ + unescape_newlines(s@.skip(i + 2)) =~= unescape_newlines(s@));
            i = i + 2;
        } else {
            out.push(s[i]);
            assert(rest.drop_first() =~= s@.skip(i + 1));
            assert(out@ + unescape_newlines(s@.skip(i + 1)) =~= unescape_newlines(s@));
            i = i + 1;
        }
    }
    assert(s@.skip(i as int) =~= Seq::<char>::empty());
    assert(out@ + Seq::<char>::empty() =~= out@);
    out
}

/// Terminal settings the platform hands the agent.
#[derive(Debug, Clone)]
pub struct RuntimeTerminalBootstrap {
    pub enabled: bool,
    pub public_key: Option<String>,
    pub issuer: String,
    pub audience: String,
}

impl RuntimeTerminalBootstrap {
    /// Terminal disabled.
    pub fn disabled() -> (r: Self)
        ensures
            !r.enabled,
            r.public_key is None,
            r.issuer@.len() == 0,
            r.audience@.len() == 0,
    {
        RuntimeTerminalBootstrap {
            enabled: false,
            public_key: None,
            issuer: String::new(),
            audience: String::new(),
        }
    }

    /// The settings when complete: enabled, with a public key (escaped
    /// newlines restored, trimmed, not empty), an issuer and an audience
    /// that are not blank; else terminal disabled.
    pub fn validated(self) -> (r: Self)
        ensures
            ({
                let key = match self.public_key {
                    Some(k) => Some(trim_ws(unescape_newlines(k@))),
                    None => None,
                };
                if self.enabled && key is Some && key->0.len() > 0 && trim_ws(self.issuer@).len()
                    > 0 && trim_ws(self.audience@).len() > 0 {
                    r.enabled && r.public_key is Some && r.public_key->0@ == key->0 && r.issuer
                        == self.issuer && r.audience == self.audience
                } else {
                    !r.enabled && r.public_key is None && r.issuer@.len() == 0
                        && r.audience@.len() == 0
                }
            }),
    {
        let key: Option<Vec<char>> = match &self.public_key {
            Some(k) => {
                let u = unescape_newlines_exec(chars_of(k.as_str()).as_slice());
                let t = trim(u.as_slice());
                if t.len() > 0 {
                    Some(t)
                } else {
                    None
                }
            },
            None => None,
        };
        if !self.enabled || key.is_none() || trim_str(self.issuer.as_str()).len() == 0 || trim_str(
            self.audience.as_str(),
        ).len() == 0 {
            return RuntimeTerminalBootstrap::disabled();
        }
        let k = match key {
            Some(k) => k,
            None => Vec::new(),
        };
        RuntimeTerminalBootstrap {
            enabled: true,
            public_key: Some(string_of(k.as_slice())),
            issuer: self.issuer,
            audience: self.audience,
        }
    }
}

/// The host of a URL as `url` parses it.
#[derive(Debug, Clone, PartialEq, Eq)]
pub enum UrlHost {
    Domain(String),
    Ipv4(u8, u8, u8, u8),
    Ipv6(u16, u16, u16, u16, u16, u16, u16, u16),
}

/// A URL host as plain values: 0 and the domain, 4 and the octets, or 6
/// and the segments.
pub open spec fn url_host_view(h: UrlHost) -> (u8, Seq<char>, Seq<int>) {
    match h {
        UrlHost::Domain(d) => (0, d@, Seq::empty()),
        UrlHost::Ipv4(a, b, c, d) => (4, Seq::empty(), seq![a as int, b as int, c as int, d as int]),
        UrlHost::Ipv6(a, b, c, d, e, f, g, k) => (6, Seq::empty(), seq![
            a as int,
            b as int,
            c as int,
            d as int,
            e as int,
            f as int,
            g as int,
            k as int,
        ]),
    }
}

/// What `url` finds as the host of a URL (none when it does not parse or
/// has no host).
pub uninterp spec fn parsed_url_host(raw: Seq<char>) -> Option<(u8, Seq<char>, Seq<int>)>;

/// `url::Url::parse(raw)` and `Url::host()`, each variant's fields moved
/// into [`UrlHost`]; the result is named [`parsed_url_host`].
#[verifier::external_body]
fn url_host_of(raw: &str) -> (r: Option<UrlHost>)
    ensures
        match r {
            Some(h) => parsed_url_host(raw@) == Some(url_host_view(h)),
            None => parsed_url_host(raw@) is None,
        },
{
    let url = url::Url::parse(raw).ok()?;
    match url.host()? {
        url::Host::Domain(d) => Some(UrlHost::Domain(d.to_string())),
        url::Host::Ipv4(ip) => {
            let o = ip.octets();
            Some(UrlHost::Ipv4(o[0], o[1], o[2], o[3]))
        },
        url::Host::Ipv6(ip) => {
            let s = ip.segments();
            Some(UrlHost::Ipv6(s[0], s[1], s[2], s[3], s[4], s[5], s[6], s[7]))
        },
    }
}

/// A URL on this machine: `localhost` (any case), an IPv4 address in
/// 127.0.0.0/8, or `::1`.
pub open spec fn loopback_url(raw: Seq<char>) -> bool {
    match parsed_url_host(raw) {
        Some((k, d, n)) => if k == 0 {
            lower_seq(d) == "localhost"@
        } else if k == 4 {
            n.len() == 4 && n[0] == 127
        } else {
            n == seq![0int, 0int, 0int, 0int, 0int, 0int, 0int, 1int]
        },
        None => false,
    }
}

pub fn is_loopback_base_url(raw: &str) -> (r: bool)
    ensures
        r == loopback_url(raw@),
{
    match url_host_of(raw) {
        Some(UrlHost::Domain(d)) => {
            let l = to_lower(chars_of(d.as_str()).as_slice());
            seq_eq(l.as_slice(), chars_of("localhost").as_slice())
        },
        Some(UrlHost::Ipv4(a, _, _, _)) => a == 127,
        Some(UrlHost::Ipv6(a, b, c, d, e, f, g, k)) => {
            let r = a == 0 && b == 0 && c == 0 && d == 0 && e == 0 && f == 0 && g == 0 && k == 1;
            assert(r == (seq![a as int, b as int, c as int, d as int, e as int, f as int, g as int, k as int]
                =~= seq![0int, 0int, 0int, 0int, 0int, 0int, 0int, 1int]));
            r
        },
        None => false,
    }
}

/// What `opcode-api` reports of its terminal support.
#[derive(Debug, Clone)]
pub struct OpcodeRuntimeCapabilities {
    pub supports_terminal: bool,
    pub terminal_base_url: Option<String>,
}

/// The terminal URL the agent advertises: only when the runtime supports
/// the terminal and serves it on this machine (trimmed, without trailing
/// slashes).
pub open spec fn advertised_terminal_url(supports: bool, url: Option<Seq<char>>) -> Option<Seq<char>> {
    if !supports {
        None
    } else {
        match url {
            None => None,
            Some(u) => {
                let v = trim_end_char(trim_ws(u), '/');
                if loopback_url(v) {
                    Some(v)
                } else {
                    None
                }
            },
        }
    }
}

pub fn verified_terminal_base_url(runtime: &OpcodeRuntimeCapabilities) -> (r: Option<String>)
    ensures
        match r {
            Some(s) => advertised_terminal_url(
                runtime.supports_terminal,
                match runtime.terminal_base_url {
                    Some(u) => Some(u@),
                    None => None,
                },
            ) == Some(s@),
            None => advertised_terminal_url(
                runtime.supports_terminal,
                match runtime.terminal_base_url {
                    Some(u) => Some(u@),
                    None => None,
                },
            ) is None,
        },
{
    if !runtime.supports_terminal {
        return None;
    }
    match &runtime.terminal_base_url {
        None => None,
        Some(u) => {
            let t = trim_str(u.as_str());
            let v = trim_end_matches_char(t.as_slice(), '/');
            let s = string_of(v.as_slice());
            if is_loopback_base_url(s.as_str()) {
                Some(s)
            } else {
                None
            }
        },
    }
}

/// The port `url` finds in a URL, explicit or the scheme's default.
pub uninterp spec fn url_port_or_default(raw: Seq<char>) -> Option<u16>;

/// `url::Url::parse(raw)` and `port_or_known_default()`; the result is
/// named [`url_port_or_default`].
#[verifier::external_body]
fn port_or_default(raw: &str) -> (r: Option<u16>)
    ensures
        r == url_port_or_default(raw@),
{
    url::Url::parse(raw).ok().and_then(|u| u.port_or_known_default())
}

/// The port `opcode-api` listens on: that of its base URL, 9191 when the
/// URL has none.
pub fn opcode_port_from_base_url(base: &str) -> (r: u16)
    ensures
        r == (match url_port_or_default(base@) {
            Some(p) => p,
            None => 9191u16,
        }),
{
    match port_or_default(base) {
        Some(p) => p,
        None => 9191,
    }
}

/// The port of a listening address: the text after its last `:`.
pub open spec fn address_port(line: Seq<char>) -> Option<u16> {
    match last_index(line, ':') {
        Some(i) => parse_u16(line.skip(i + 1)),
        None => parse_u16(line),
    }
}

/// The distinct ports of listening addresses, one per line, in first-seen
/// order.
pub open spec fn listening_ports(lines: Seq<Seq<char>>) -> Seq<u16>
    decreases lines.len(),
{
    if lines.len() == 0 {
        Seq::empty()
    } else {
        let prev = listening_ports(lines.drop_last());
        let t = trim_ws(lines.last());
        if t.len() == 0 {
            prev
        } else {
            match address_port(t) {
                Some(p) => if prev.contains(p) {
                    prev
                } else {
                    prev.push(p)
                },
                None => prev,
            }
        }
    }
}

fn address_port_exec(t: &[char]) -> (r: Option<u16>)
    ensures
        r == address_port(t@),
{
    let mut i: usize = t.len();
    assert(t@.subrange(0, t@.len() as int) =~= t@);
    while i > 0 && t[i - 1] != ':'
        invariant
            i <= t@.len(),
            last_index(t@, ':') == last_index(t@.subrange(0, i as int), ':'),
        decreases i,
    {
        assert(t@.subrange(0, i as int).drop_last() =~= t@.subrange(0, i - 1));
        i = i - 1;
    }
    if i == 0 {
        assert(t@.subrange(0, 0) =~= Seq::<char>::empty());
        parse_u16_chars(t)
    } else {
        assert(t@.subrange(0, i as int).last() == t@[i - 1]);
        let rest = slice_vec(t, i, t.len());
        assert(rest@ =~= t@.skip(i as int));
        parse_u16_chars(rest.as_slice())
    }
}

fn contains_port(v: &Vec<u16>, p: u16) -> (r: bool)
    ensures
        r == v@.contains(p),
{
    let mut i: usize = 0;
    while i < v.len()
        invariant
            i <= v@.len(),
            forall|j: int| 0 <= j < i ==> v@[j] != p,
        decreases v@.len() - i,
    {
        if v[i] == p {
            return true;
        }
        i = i + 1;
    }
    false
}

/// The ports of `lsof` listening addresses (see [`listening_ports`]).
pub fn parse_listening_ports(output: &str) -> (r: Vec<u16>)
    ensures
        r@ == listening_ports(lines_of(output@)),
{
    let ls = lines(chars_of(output).as_slice());
    let ghost all = lines_of(output@);
    let mut ports: Vec<u16> = Vec::new();
    let mut i: usize = 0;
    while i < ls.len()
        invariant
            i <= ls@.len(),
            ls@.len() == all.len(),
            all == lines_of(output@),
            forall|j: int| 0 <= j < ls@.len() ==> #[trigger] ls@[j]@ == all[j],
            ports@ == listening_ports(all.subrange(0, i as int)),
        decreases ls@.len() - i,
    {
        assert(all.subrange(0, i + 1).drop_last() =~= all.subrange(0, i as int));
        assert(all.subrange(0, i + 1).last() == all[i as int]);
        let t = trim(ls[i].as_slice());
        if t.len() > 0 {
            match address_port_exec(t.as_slice()) {
                Some(p) => {
                    if !contains_port(&ports, p) {
                        ports.push(p);
                    }
                },
                None => {},
            }
        }
        i = i + 1;
    }
    assert(all.subrange(0, all.len() as int) =~= all);
    ports
}

/// The distinct ports of a comma-separated list, blank and unparsable
/// entries skipped, in first-seen order.
pub open spec fn port_list(parts: Seq<Seq<char>>) -> Seq<u16>
    decreases parts.len(),
{
    if parts.len() == 0 {
        Seq::empty()
    } else {
        let prev = port_list(parts.drop_last());
        let v = trim_ws(parts.last());
        match parse_u16(v) {
            Some(p) => if v.len() > 0 && !prev.contains(p) {
                prev.push(p)
            } else {
                prev
            },
            None => prev,
        }
    }
}

/// The candidate ports for automatic exposure: those listed in
/// `D1V_RUNTIME_AUTO_EXPOSE_CANDIDATE_PORTS` when it lists any, else the
/// defaults.
pub fn configured_auto_expose_candidate_ports(env_value: Option<&str>) -> (r: Vec<u16>)
    ensures
        match env_value {
            Some(raw) => if port_list(split_char(raw@, ',')).len() > 0 {
                r@ == port_list(split_char(raw@, ','))
            } else {
                r@ == default_candidate_ports()
            },
            None => r@ == default_candidate_ports(),
        },
{
    match env_value {
        Some(raw) => {
            let parts = split(chars_of(raw).as_slice(), ',');
            let ghost ps = piece_views(parts@);
            assert(ps =~= split_char(raw@, ','));
            let mut ports: Vec<u16> = Vec::new();
            let mut i: usize = 0;
            while i < parts.len()
                invariant
                    i <= parts@.len(),
                    ps == piece_views(parts@),
                    ports@ == port_list(ps.subrange(0, i as int)),
                decreases parts@.len() - i,
            {
                assert(ps.subrange(0, i + 1).drop_last() =~= ps.subrange(0, i as int));
                assert(ps.subrange(0, i + 1).last() == parts@[i as int]@);
                let v = trim(parts[i].as_slice());
                match parse_u16_chars(v.as_slice()) {
                    Some(p) => {
                        if v.len() > 0 && !contains_port(&ports, p) {
                            ports.push(p);
                        }
                    },
                    None => {},
                }
                i = i + 1;
            }
            assert(ps.subrange(0, ps.len() as int) =~= ps);
            if ports.len() > 0 {
                return ports;
            }
            default_auto_expose_candidate_ports()
        },
        None => default_auto_expose_candidate_ports(),
    }
}

/// The ports to expose: `opcode-api`'s own, then each discovered listening
/// port that is a candidate, once.
pub open spec fn expose_ports(opcode_port: u16, candidates: Seq<u16>, discovered: Seq<u16>) -> Seq<
    u16,
>
    decreases discovered.len(),
{
    if discovered.len() == 0 {
        seq![opcode_port]
    } else {
        let prev = expose_ports(opcode_port, candidates, discovered.drop_last());
        let p = discovered.last();
        if candidates.contains(p) && !prev.contains(p) {
            prev.push(p)
        } else {
            prev
        }
    }
}

pub fn detect_local_expose_ports(opcode_port: u16, candidates: &Vec<u16>, discovered: &Vec<u16>) -> (r:
    Vec<u16>)
    ensures
        r@ == expose_ports(opcode_port, candidates@, discovered@),
{
    let mut ports: Vec<u16> = Vec::new();
    ports.push(opcode_port);
    let mut i: usize = 0;
    assert(ports@ =~= expose_ports(opcode_port, candidates@, discovered@.subrange(0, 0)));
    while i < discovered.len()
        invariant
            i <= discovered@.len(),
            ports@ == expose_ports(opcode_port, candidates@, discovered@.subrange(0, i as int)),
        decreases discovered@.len() - i,
    {
        assert(discovered@.subrange(0, i + 1).drop_last() =~= discovered@.subrange(0, i as int));
        let p = discovered[i];
        if contains_port(candidates, p) && !contains_port(&ports, p) {
            ports.push(p);
        }
        i = i + 1;
    }
    assert(discovered@.subrange(0, discovered@.len() as int) =~= discovered@);
    ports
}

/// Where `opcode-api` writes its log: `logs/opcode-api.log` under the
/// agent home, else under `agent/home` in the config directory, else under
/// the default home directory.
pub fn runtime_log_path(config: &AgentConfig, config_dir: Option<&str>) -> (r: String)
    ensures
        r@ == path_join(
            path_join(
                match config.home_root {
                    Some(h) => h@,
                    None => match config_dir {
                        Some(c) => path_join(c@, "agent/home"@),
                        None => DEFAULT_HOME_DIR@,
                    },
                },
                "logs"@,
            ),
            "opcode-api.log"@,
        ),
{
    let base = match &config.home_root {
        Some(h) => h.clone(),
        None => match config_dir {
            Some(c) => join_path(c, "agent/home"),
            None => DEFAULT_HOME_DIR.to_owned(),
        },
    };
    let logs = join_path(base.as_str(), "logs");
    join_path(logs.as_str(), "opcode-api.log")
}

/// The agent's directory under the config directory.
pub fn agent_dir(config_dir: &str) -> (r: String)
    ensures
        r@ == path_join(config_dir@, "agent"@),
{
    join_path(config_dir, "agent")
}

/// The agent's configuration file.
pub fn agent_config_path(config_dir: &str) -> (r: String)
    ensures
        r@ == path_join(path_join(config_dir@, "agent"@), "config.json"@),
{
    let d = agent_dir(config_dir);
    join_path(d.as_str(), "config.json")
}

/// A fresh device id from a unique suffix.
pub fn new_device_id(unique: &str) -> (r: String)
    ensures
        r@ == "dev-"@ + unique@,
{
    let mut v: Vec<char> = Vec::new();
    push_str(&mut v, "dev-");
    push_str(&mut v, unique);
    string_of(v.as_slice())
}

/// The device name: the host name (or `local-device`) and the OS.
pub fn default_device_name(hostname: Option<&str>, os: &str) -> (r: String)
    ensures
        r@ == (match hostname {
            Some(h) => h@,
            None => "local-device"@,
        }) + " ("@ + os@ + ")"@,
{
    let mut v: Vec<char> = Vec::new();
    match hostname {
        Some(h) => push_str(&mut v, h),
        None => push_str(&mut v, "local-device"),
    }
    push_str(&mut v, " (");
    push_str(&mut v, os);
    push_str(&mut v, ")");
    string_of(v.as_slice())
}

} // verus!

verus! {

/// Why an agent command cannot go on.
#[derive(Debug, Clone, PartialEq, Eq)]
pub enum AgentError {
    HomeNotInitialized,
    InvalidRelayUrl(String),
    InvalidBase64(String),
}

impl AgentError {
    pub fn message(&self) -> (r: String)
        ensures
            self is HomeNotInitialized ==> r@
                == "agent home is not initialized; run `d1v agent init-home` first"@,
            self matches AgentError::InvalidRelayUrl(m) ==> r@ == m@,
            self matches AgentError::InvalidBase64(m) ==> r@ == m@,
    {
        match self {
            AgentError::HomeNotInitialized => "agent home is not initialized; run `d1v agent init-home` first".to_owned(),
            AgentError::InvalidRelayUrl(m) => m.clone(),
            AgentError::InvalidBase64(m) => m.clone(),
        }
    }
}

/// Applies a device name and id given on the command line.
pub fn apply_identity(config: &mut AgentConfig, name: Option<String>, device_id: Option<String>)
    ensures
        final(config).device_name == (match name {
            Some(n) => n,
            None => old(config).device_name,
        }),
        final(config).device_id == (match device_id {
            Some(d) => d,
            None => old(config).device_id,
        }),
        final(config).home_root == old(config).home_root,
        final(config).opcode_base_url == old(config).opcode_base_url,
        final(config).project_bindings == old(config).project_bindings,
{
    match name {
        Some(n) => {
            config.device_name = n;
        },
        None => {},
    }
    match device_id {
        Some(d) => {
            config.device_id = d;
        },
        None => {},
    }
}

/// Where `agent project create` puts a project: the given path, else
/// `projects/NAME` under the agent home, which must be set.
pub fn project_create_path(config: &AgentConfig, path: Option<String>, name: &str) -> (r: Result<
    String,
    AgentError,
>)
    ensures
        match path {
            Some(p) => r matches Ok(s) && s@ == p@,
            None => match config.home_root {
                Some(h) => r matches Ok(s) && s@ == path_join(path_join(h@, "projects"@), name@),
                None => r == Err::<String, AgentError>(AgentError::HomeNotInitialized),
            },
        },
{
    match path {
        Some(p) => Ok(p),
        None => match &config.home_root {
            Some(h) => {
                let projects = join_path(h.as_str(), "projects");
                Ok(join_path(projects.as_str(), name))
            },
            None => Err(AgentError::HomeNotInitialized),
        },
    }
}

/// The bindings as `agent status` lists them: `ID => ROOT` joined by
/// commas, or `-` when there are none.
pub open spec fn bindings_text(b: Seq<(Seq<char>, Seq<char>)>) -> Seq<char>
    decreases b.len(),
{
    if b.len() == 0 {
        "-"@
    } else if b.len() == 1 {
        b[0].0 + " => "@ + b[0].1
    } else {
        bindings_text(b.drop_last()) + ", "@ + b.last().0 + " => "@ + b.last().1
    }
}

pub fn bindings_summary(bindings: &Vec<ProjectBinding>) -> (r: String)
    ensures
        r@ == bindings_text(binding_views(bindings@)),
{
    if bindings.len() == 0 {
        return "-".to_owned();
    }
    let ghost bs = binding_views(bindings@);
    let mut v: Vec<char> = Vec::new();
    let mut i: usize = 0;
    while i < bindings.len()
        invariant
            i <= bindings@.len(),
            bindings@.len() > 0,
            bs == binding_views(bindings@),
            i > 0 ==> v@ == bindings_text(bs.subrange(0, i as int)),
            i == 0 ==> v@.len() == 0,
        decreases bindings@.len() - i,
    {
        assert(bs.subrange(0, i + 1).drop_last() =~= bs.subrange(0, i as int));
        assert(bs.subrange(0, i + 1).last() == (bindings@[i as int].project_id@, bindings@[i as int].workspace_root@));
        if i > 0 {
            push_str(&mut v, ", ");
        }
        push_str(&mut v, bindings[i].project_id.as_str());
        push_str(&mut v, " => ");
        push_str(&mut v, bindings[i].workspace_root.as_str());
        proof {
            if i == 0 {
                assert(bs.subrange(0, 1)[0] == bs[0]);
            }
        }
        i = i + 1;
    }
    assert(bs.subrange(0, bs.len() as int) =~= bs);
    string_of(v.as_slice())
}

/// The lines `agent status` shows: a heading, then the device, home, base
/// URL and bindings (`-` for an unset home).
pub open spec fn status_lines(c: AgentConfig) -> Seq<Seq<char>> {
    seq![
        "Agent configuration"@,
        "  Device ID: "@ + c.device_id@,
        "  Device Name: "@ + c.device_name@,
        "  Home Root: "@ + (match c.home_root {
            Some(h) => h@,
            None => "-"@,
        }),
        "  Opcode Base URL: "@ + c.opcode_base_url@,
        "  Project Bindings: "@ + bindings_text(binding_views(c.project_bindings@)),
    ]
}

fn prefixed(prefix: &str, rest: &str) -> (r: String)
    ensures
        r@ == prefix@ + rest@,
{
    let mut v = chars_of(prefix);
    push_str(&mut v, rest);
    string_of(v.as_slice())
}

/// The text of each `agent status` line (see [`status_lines`]).
pub fn status_lines_of(config: &AgentConfig) -> (r: Vec<String>)
    ensures
        r@.len() == 6,
        forall|i: int| 0 <= i < 6 ==> #[trigger] r@[i]@ == status_lines(*config)[i],
{
    let home = match &config.home_root {
        Some(h) => h.clone(),
        None => "-".to_owned(),
    };
    let b = bindings_summary(&config.project_bindings);
    let mut v: Vec<String> = Vec::new();
    v.push("Agent configuration".to_owned());
    v.push(prefixed("  Device ID: ", config.device_id.as_str()));
    v.push(prefixed("  Device Name: ", config.device_name.as_str()));
    v.push(prefixed("  Home Root: ", home.as_str()));
    v.push(prefixed("  Opcode Base URL: ", config.opcode_base_url.as_str()));
    v.push(prefixed("  Project Bindings: ", b.as_str()));
    v
}

/// A URL with every `http://` turned into `ws://` and every `https://`
/// into `wss://`.
pub open spec fn ws_scheme(s: Seq<char>) -> Seq<char>
    decreases s.len(),
{
    if s.len() == 0 {
        s
    } else if has_prefix(s, seq!['h', 't', 't', 'p', ':', '/', '/']) {
        seq!['w', 's', ':', '/', '/'] + ws_scheme(s.skip(7))
    } else if has_prefix(s, seq!['h', 't', 't', 'p', 's', ':', '/', '/']) {
        seq!['w', 's', 's', ':', '/', '/'] + ws_scheme(s.skip(8))
    } else {
        seq![s[0]] + ws_scheme(s.drop_first())
    }
}

pub fn websocket_base(url: &str) -> (r: String)
    ensures
        r@ == ws_scheme(url@),
{
    let s = chars_of(url);
    let http = chars_of("http://");
    let https = chars_of("https://");
    proof {
        reveal_strlit("http://");
        reveal_strlit("https://");
        assert(http@ =~= seq!['h', 't', 't', 'p', ':', '/', '/']);
        assert(https@ =~= seq!['h', 't', 't', 'p', 's', ':', '/', '/']);
    }
    let mut out: Vec<char> = Vec::new();
    let mut i: usize = 0;
    assert(s@.skip(0) =~= s@);
    while i < s.len()
        invariant
            i <= s@.len(),
            s@ == url@,
            http@ == seq!['h', 't', 't', 'p', ':', '/', '/'],
            https@ == seq!['h', 't', 't', 'p', 's', ':', '/', '/'],
            out@ + ws_scheme(s@.skip(i as int)) == ws_scheme(url@),
        decreases s@.len() - i,
    {
        let ghost rest = s@.skip(i as int);
        if crate::strs::matches_at(s.as_slice(), i, http.as_slice()) {
            assert(rest.subrange(0, 7) =~= s@.subrange(i as int, i + 7));
            assert(rest.skip(7) =~= s@.skip(i + 7));
            push_str(&mut out, "ws://");
            proof {
                reveal_strlit("ws://");
                assert("ws://"@ =~= seq!['w', 's', ':', '/', '/']);
            }
            assert(out@ + ws_scheme(s@.skip(i + 7)) =~= ws_scheme(url@));
            i = i + 7;
        } else if crate::strs::matches_at(s.as_slice(), i, https.as_slice()) {
            assert(rest.subrange(0, 8) =~= s@.subrange(i as int, i + 8));
            assert(rest.skip(8) =~= s@.skip(i + 8));
            assert(rest[4] == s@[i + 4]);
            assert(!has_prefix(rest, seq!['h', 't', 't', 'p', ':', '/', '/'])) by {
                if rest.len() >= 7 {
                    assert(rest.subrange(0, 7)[4] == 's');
                }
            }
            push_str(&mut out, "wss://");
            proof {
                reveal_strlit("wss://");
                assert("wss://"@ =~= seq!['w', 's', 's', ':', '/', '/']);
            }
            assert(out@ + ws_scheme(s@.skip(i + 8)) =~= ws_scheme(url@));
            i = i + 8;
        } else {
            proof {
                if rest.len() >= 7 {
                    assert(rest.subrange(0, 7) =~= s@.subrange(i as int, i + 7));
                }
                if rest.len() >= 8 {
                    assert(rest.subrange(0, 8) =~= s@.subrange(i as int, i + 8));
                }
            }
            out.push(s[i]);
            assert(rest.drop_first() =~= s@.skip(i + 1));
            assert(out@ + ws_scheme(s@.skip(i + 1)) =~= ws_scheme(url@));
            i = i + 1;
        }
    }
    assert(s@.skip(i as int) =~= Seq::<char>::empty());
    assert(out@ + Seq::<char>::empty() =~= out@);
    string_of(out.as_slice())
}

} // verus!

verus! {

/// A command-line tool `agent start` needs on the machine.
#[derive(Debug, Clone)]
pub struct RequiredCliTool {
    pub label: String,
    pub binary: String,
    /// A variable that may name the binary directly.
    pub env_override: Option<String>,
    /// Where the tool is usually installed; `~/` means the home directory.
    pub common_paths: Vec<String>,
}

/// A path with a leading `~/` put under the home directory; without a home
/// directory such a path is dropped.
pub open spec fn expand_home(path: Seq<char>, home: Option<String>) -> Option<Seq<char>> {
    if crate::strs::has_prefix(path, "~/"@) {
        match home {
            Some(h) => Some(path_join(h@, path.skip(2))),
            None => None,
        }
    } else {
        Some(path)
    }
}

pub fn expand_home_path(path: &str, home: &Option<String>) -> (r: Option<String>)
    ensures
        match (r, expand_home(path@, *home)) {
            (Some(a), Some(b)) => a@ == b,
            (None, None) => true,
            _ => false,
        },
{
    let c = chars_of(path);
    proof {
        reveal_strlit("~/");
    }
    if crate::strs::starts_with_str(c.as_slice(), "~/") {
        match home {
            Some(h) => {
                let rest = crate::strs::slice_vec(c.as_slice(), 2, c.len());
                assert(rest@ =~= path@.skip(2));
                Some(join_path(h.as_str(), string_of(rest.as_slice()).as_str()))
            },
            None => None,
        }
    } else {
        Some(path.to_owned())
    }
}

/// The expanded common paths, in order.
pub open spec fn expanded_paths(paths: Seq<String>, home: Option<String>) -> Seq<Seq<char>>
    decreases paths.len(),
{
    if paths.len() == 0 {
        Seq::empty()
    } else {
        let rest = expanded_paths(paths.drop_last(), home);
        match expand_home(paths.last()@, home) {
            Some(p) => rest.push(p),
            None => rest,
        }
    }
}

/// The files checked for a tool, in order; the first that exists is the
/// tool: the file its variable names (when the tool has one and it is
/// set), then the binary in each `PATH` directory, then the common paths.
pub open spec fn tool_candidates_spec(
    tool: RequiredCliTool,
    env_value: Option<String>,
    path_dirs: Seq<String>,
    home: Option<String>,
) -> Seq<Seq<char>> {
    let from_env = match (tool.env_override, env_value) {
        (Some(_), Some(v)) => seq![v@],
        _ => Seq::<Seq<char>>::empty(),
    };
    from_env + Seq::new(path_dirs.len(), |i: int| path_join(path_dirs[i]@, tool.binary@)) + expanded_paths(
        tool.common_paths@,
        home,
    )
}

pub fn tool_candidates(
    tool: &RequiredCliTool,
    env_value: &Option<String>,
    path_dirs: &Vec<String>,
    home: &Option<String>,
) -> (r: Vec<String>)
    ensures
        crate::view::string_texts(r@) == tool_candidates_spec(*tool, *env_value, path_dirs@, *home),
{
    let mut out: Vec<String> = Vec::new();
    if tool.env_override.is_some() {
        if let Some(v) = env_value {
            out.push(v.clone());
        }
    }
    let ghost first = crate::view::string_texts(out@);
    let mut i: usize = 0;
    while i < path_dirs.len()
        invariant
            i <= path_dirs@.len(),
            crate::view::string_texts(out@) == first + Seq::new(
                i as nat,
                |k: int| path_join(path_dirs@[k]@, tool.binary@),
            ),
        decreases path_dirs@.len() - i,
    {
        let ghost before = crate::view::string_texts(out@);
        out.push(join_path(path_dirs[i].as_str(), tool.binary.as_str()));
        assert(crate::view::string_texts(out@) =~= before.push(path_join(path_dirs@[i as int]@, tool.binary@)));
        assert(crate::view::string_texts(out@) =~= first + Seq::new(
            (i + 1) as nat,
            |k: int| path_join(path_dirs@[k]@, tool.binary@),
        ));
        i = i + 1;
    }
    let ghost second = crate::view::string_texts(out@);
    let mut j: usize = 0;
    while j < tool.common_paths.len()
        invariant
            j <= tool.common_paths@.len(),
            crate::view::string_texts(out@) == second + expanded_paths(
                tool.common_paths@.take(j as int),
                *home,
            ),
        decreases tool.common_paths@.len() - j,
    {
        assert(tool.common_paths@.take(j + 1).drop_last() =~= tool.common_paths@.take(j as int));
        assert(tool.common_paths@.take(j + 1).last() == tool.common_paths@[j as int]);
        let ghost before = crate::view::string_texts(out@);
        match expand_home_path(tool.common_paths[j].as_str(), home) {
            Some(p) => {
                out.push(p);
                assert(crate::view::string_texts(out@) =~= before.push(
                    expand_home(tool.common_paths@[j as int]@, *home)->0,
                ));
            },
            None => {},
        }
        j = j + 1;
    }
    assert(tool.common_paths@.take(tool.common_paths@.len() as int) =~= tool.common_paths@);
    assert(crate::view::string_texts(out@) =~= tool_candidates_spec(*tool, *env_value, path_dirs@, *home));
    out
}

/// How a missing tool gets installed.
#[derive(Debug, Clone, PartialEq, Eq)]
pub enum InstallAction {
    /// Run a program with arguments; `display` is the command as shown.
    Shell { program: String, args: Vec<String>, display: String },
    /// No installer: the reason to show.
    Unsupported { reason: String },
}

/// What `agent start` does about a tool that was not found.
#[derive(Debug, Clone, PartialEq, Eq)]
pub enum MissingTool {
    /// Install it, after saying so.
    Install { message: String },
    /// Stop with this message.
    Fail { message: String },
}

/// An installer through `curl` needs `curl`; an unsupported tool stops
/// with its reason; otherwise the install is announced.
pub open spec fn missing_tool_spec(label: Seq<char>, action: InstallAction, curl_found: bool) -> (bool, Seq<char>) {
    match action {
        InstallAction::Shell { display, .. } => if crate::strs::contains_seq(display@, "curl"@) && !curl_found {
            (
                false,
                label + " is not installed and curl is missing. Install curl first, then rerun `d1v agent start`."@,
            )
        } else {
            (true, label + " not found; installing with `"@ + display@ + "`"@)
        },
        InstallAction::Unsupported { reason } => (false, label + " not found. "@ + reason@),
    }
}

pub fn missing_tool(label: &str, action: &InstallAction, curl_found: bool) -> (r: MissingTool)
    ensures
        missing_tool_spec(label@, *action, curl_found).0 ==> (r matches MissingTool::Install { message }
            && message@ == missing_tool_spec(label@, *action, curl_found).1),
        !missing_tool_spec(label@, *action, curl_found).0 ==> (r matches MissingTool::Fail { message }
            && message@ == missing_tool_spec(label@, *action, curl_found).1),
{
    let mut v = chars_of(label);
    match action {
        InstallAction::Shell { display, .. } => {
            let needs_curl = crate::strs::contains(chars_of(display.as_str()).as_slice(), chars_of("curl").as_slice());
            if needs_curl && !curl_found {
                push_str(
                    &mut v,
                    " is not installed and curl is missing. Install curl first, then rerun `d1v agent start`.",
                );
                MissingTool::Fail { message: string_of(v.as_slice()) }
            } else {
                push_str(&mut v, " not found; installing with `");
                push_str(&mut v, display.as_str());
                push_str(&mut v, "`");
                MissingTool::Install { message: string_of(v.as_slice()) }
            }
        },
        InstallAction::Unsupported { reason } => {
            push_str(&mut v, " not found. ");
            push_str(&mut v, reason.as_str());
            MissingTool::Fail { message: string_of(v.as_slice()) }
        },
    }
}

/// The message for a tool found at a path (`found`) or installed there.
pub fn tool_found_message(label: &str, path: &str, installed: bool) -> (r: String)
    ensures
        r@ == (if installed { "installed "@ } else { "found "@ }) + label@ + " at "@ + path@,
{
    let mut v: Vec<char> = Vec::new();
    if installed {
        push_str(&mut v, "installed ");
    } else {
        push_str(&mut v, "found ");
    }
    push_str(&mut v, label);
    push_str(&mut v, " at ");
    push_str(&mut v, path);
    string_of(v.as_slice())
}

/// The failure when an installer ran but the tool is still missing.
pub fn still_missing_message(tool: &RequiredCliTool) -> (r: String)
    ensures
        r@ == tool.label@ + " installer completed but `"@ + tool.binary@
            + "` is still not available on PATH/common locations."@,
{
    let mut v = chars_of(tool.label.as_str());
    push_str(&mut v, " installer completed but `");
    push_str(&mut v, tool.binary.as_str());
    push_str(&mut v, "` is still not available on PATH/common locations.");
    string_of(v.as_slice())
}

/// The installer of the `codex` tool on an operating system.
pub open spec fn codex_install_action_spec(os: Seq<char>) -> (bool, Seq<char>) {
    if os == "macos"@ || os == "linux"@ {
        (true, "curl -fsSL https://chatgpt.com/codex/install.sh | sh"@)
    } else if os == "windows"@ {
        (false, "Codex on Windows should follow the official Windows guide or WSL flow: https://developers.openai.com/codex/windows"@)
    } else {
        (false, "Codex automatic install is not configured for OS `"@ + os
            + "`. Follow https://developers.openai.com/codex/cli"@)
    }
}

pub fn codex_install_action(os: &str) -> (r: InstallAction)
    ensures
        codex_install_action_spec(os@).0 ==> (r matches InstallAction::Shell { program, args, display }
            && program@ == "sh"@ && args@.len() == 2 && args@[0]@ == "-lc"@ && args@[1]@
            == codex_install_action_spec(os@).1 && display@ == codex_install_action_spec(os@).1),
        !codex_install_action_spec(os@).0 ==> (r matches InstallAction::Unsupported { reason }
            && reason@ == codex_install_action_spec(os@).1),
{
    if crate::strs::str_eq(os, "macos") || crate::strs::str_eq(os, "linux") {
        let cmd = "curl -fsSL https://chatgpt.com/codex/install.sh | sh";
        let mut args: Vec<String> = Vec::new();
        args.push("-lc".to_owned());
        args.push(cmd.to_owned());
        InstallAction::Shell { program: "sh".to_owned(), args, display: cmd.to_owned() }
    } else if crate::strs::str_eq(os, "windows") {
        InstallAction::Unsupported {
            reason: "Codex on Windows should follow the official Windows guide or WSL flow: https://developers.openai.com/codex/windows".to_owned(),
        }
    } else {
        let mut v = chars_of("Codex automatic install is not configured for OS `");
        push_str(&mut v, os);
        push_str(&mut v, "`. Follow https://developers.openai.com/codex/cli");
        InstallAction::Unsupported { reason: string_of(v.as_slice()) }
    }
}

/// A tool without an installer of its own.
pub fn no_installer(label: &str) -> (r: InstallAction)
    ensures
        r matches InstallAction::Unsupported { reason } && reason@ == "no installer configured for "@ + label@,
{
    let mut v = chars_of("no installer configured for ");
    push_str(&mut v, label);
    InstallAction::Unsupported { reason: string_of(v.as_slice()) }
}

} // verus!
