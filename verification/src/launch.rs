//! Starting the local `opcode-api` runtime for the agent: its working
//! directory and environment, and the order in which the agent probes for
//! a runtime that is already serving, starts its own and waits for it.
//!
//! The probes (an HTTP health check, a TCP connect to the runtime's port),
//! the pauses and the process itself are the caller's part; it tells
//! [`OpcodeLaunch::step`] what each probe found.
use crate::agent::{AgentConfig, RuntimeTerminalBootstrap, DEFAULT_HOME_DIR, DEFAULT_OPCODE_HEALTH};
use crate::customer::{customer_node, customer_node_id};
use crate::relay::string_pairs;
use crate::skill::{join_path, path_join};
use crate::strs::{push_str, string_of};
use vstd::prelude::*;

verus! {

/// The agent home: the configured one, else `agent/home` under the config
/// directory, else the default home directory.
pub open spec fn agent_home(config: AgentConfig, config_dir: Option<Seq<char>>) -> Seq<char> {
    match config.home_root {
        Some(h) => h@,
        None => match config_dir {
            Some(c) => path_join(c, "agent/home"@),
            None => DEFAULT_HOME_DIR@,
        },
    }
}

/// The directory the runtime works in: the agent home.
pub fn agent_workspace_root(config: &AgentConfig, config_dir: Option<&str>) -> (r: String)
    ensures
        r@ == agent_home(
            *config,
            match config_dir {
                Some(c) => Some(c@),
                None => None,
            },
        ),
{
    match &config.home_root {
        Some(h) => h.clone(),
        None => match config_dir {
            Some(c) => join_path(c, "agent/home"),
            None => DEFAULT_HOME_DIR.to_owned(),
        },
    }
}

/// The variables that tell the runtime its node id and whether, and how,
/// it serves the remote terminal; the ticket settings only when it does.
pub open spec fn terminal_env(device_id: Seq<char>, b: RuntimeTerminalBootstrap) -> Seq<
    (Seq<char>, Seq<char>),
> {
    let base = seq![
        ("OPCODE_RUNTIME_NODE_ID"@, customer_node(device_id)),
        ("D1V_SHELL_ENABLED"@, if b.enabled {
            "1"@
        } else {
            "0"@
        }),
    ];
    if b.enabled {
        base + seq![
            ("D1V_SHELL_TICKET_PUBLIC_KEY"@, match b.public_key {
                Some(k) => k@,
                None => seq![],
            }),
            ("D1V_SHELL_TICKET_ISSUER"@, b.issuer@),
            ("D1V_SHELL_TICKET_AUDIENCE"@, b.audience@),
        ]
    } else {
        base
    }
}

fn pair(k: &str, v: String) -> (r: (String, String))
    ensures
        r.0@ == k@,
        r.1@ == v@,
{
    (k.to_owned(), v)
}

/// The terminal variables of the runtime's environment, in order.
pub fn terminal_environment(device_id: &str, bootstrap: &RuntimeTerminalBootstrap) -> (r: Vec<
    (String, String),
>)
    ensures
        string_pairs(r@) == terminal_env(device_id@, *bootstrap),
{
    let mut env: Vec<(String, String)> = Vec::new();
    env.push(pair("OPCODE_RUNTIME_NODE_ID", customer_node_id(device_id)));
    let enabled = if bootstrap.enabled {
        "1".to_owned()
    } else {
        "0".to_owned()
    };
    env.push(pair("D1V_SHELL_ENABLED", enabled));
    if bootstrap.enabled {
        let key = match &bootstrap.public_key {
            Some(k) => k.clone(),
            None => String::new(),
        };
        env.push(pair("D1V_SHELL_TICKET_PUBLIC_KEY", key));
        env.push(pair("D1V_SHELL_TICKET_ISSUER", bootstrap.issuer.clone()));
        env.push(pair("D1V_SHELL_TICKET_AUDIENCE", bootstrap.audience.clone()));
    }
    proof {
        reveal_strlit("1");
        reveal_strlit("0");
    }
    assert(string_pairs(env@) =~= terminal_env(device_id@, *bootstrap));
    env
}

/// The runtime's environment: its working directory, the cloud-managed
/// mode, the device and the control URL, then the terminal variables.
pub open spec fn runtime_env(
    device_id: Seq<char>,
    workspace_root: Seq<char>,
    cloud_control_url: Seq<char>,
    b: RuntimeTerminalBootstrap,
) -> Seq<(Seq<char>, Seq<char>)> {
    seq![
        ("WORKSPACE_ROOT"@, workspace_root),
        ("OPCODE_RUNTIME_MODE"@, "cloud-managed"@),
        ("OPCODE_DEVICE_ID"@, device_id),
        ("OPCODE_CLOUD_CONTROL_URL"@, cloud_control_url),
    ] + terminal_env(device_id, b)
}

pub fn runtime_environment(
    config: &AgentConfig,
    workspace_root: &str,
    cloud_control_url: &str,
    bootstrap: &RuntimeTerminalBootstrap,
) -> (r: Vec<(String, String)>)
    ensures
        string_pairs(r@) == runtime_env(
            config.device_id@,
            workspace_root@,
            cloud_control_url@,
            *bootstrap,
        ),
{
    let mut env: Vec<(String, String)> = Vec::new();
    env.push(pair("WORKSPACE_ROOT", workspace_root.to_owned()));
    env.push(pair("OPCODE_RUNTIME_MODE", "cloud-managed".to_owned()));
    env.push(pair("OPCODE_DEVICE_ID", config.device_id.clone()));
    env.push(pair("OPCODE_CLOUD_CONTROL_URL", cloud_control_url.to_owned()));
    let ghost head = env@;
    let mut terminal = terminal_environment(config.device_id.as_str(), bootstrap);
    env.append(&mut terminal);
    assert(string_pairs(env@) =~= runtime_env(
        config.device_id@,
        workspace_root@,
        cloud_control_url@,
        *bootstrap,
    ));
    env
}

} // verus!

verus! {

/// What the caller checks: whether the runtime answers its health check,
/// or whether anything listens on its port.
#[derive(Debug, Clone, Copy, PartialEq, Eq)]
pub enum Probe {
    Health,
    Port,
}

/// How far the launch has got. The counters are the health checks made so
/// far while waiting.
#[derive(Debug, Clone, Copy, PartialEq, Eq)]
pub enum LaunchStage {
    FirstHealth,
    FirstPort,
    AwaitExisting(u32),
    SecondPort,
    Spawning,
    AwaitSpawned(u32),
    LastPort,
    Done,
}

/// What the caller found out.
#[derive(Debug, Clone, Copy, PartialEq, Eq)]
pub enum LaunchEvent {
    /// The result of the probe asked for.
    Found(bool),
    /// The runtime process was started.
    Started,
}

/// What the caller does next.
#[derive(Debug, Clone, PartialEq, Eq)]
pub enum LaunchAction {
    /// Pause this many milliseconds, then probe and report the result.
    Check { pause_ms: u64, probe: Probe },
    /// Start the runtime process, then report `Started`.
    Spawn,
    /// A runtime is already serving: use it.
    UseExisting,
    /// The runtime started here is serving.
    Ready,
    /// Give up with this message.
    Fail(String),
}

/// Health checks made while waiting for a runtime that holds the port.
pub const EXISTING_HEALTH_CHECKS: u32 = 10;

/// Health checks made while waiting for the runtime started here.
pub const SPAWNED_HEALTH_CHECKS: u32 = 20;

/// Launching the runtime.
#[derive(Debug, Clone)]
pub struct OpcodeLaunch {
    stage: LaunchStage,
    log_path: String,
}

/// An action as plain values: a tag (check, spawn, use existing, ready,
/// fail in that order from 0), the pause and probe of a check, the message
/// of a failure.
pub open spec fn launch_action_view(a: LaunchAction) -> (int, u64, Probe, Seq<char>) {
    match a {
        LaunchAction::Check { pause_ms, probe } => (0, pause_ms, probe, seq![]),
        LaunchAction::Spawn => (1, 0, Probe::Health, seq![]),
        LaunchAction::UseExisting => (2, 0, Probe::Health, seq![]),
        LaunchAction::Ready => (3, 0, Probe::Health, seq![]),
        LaunchAction::Fail(m) => (4, 0, Probe::Health, m@),
    }
}

pub open spec fn check(pause_ms: u64, probe: Probe) -> (int, u64, Probe, Seq<char>) {
    (0, pause_ms, probe, seq![])
}

pub open spec fn fail(m: Seq<char>) -> (int, u64, Probe, Seq<char>) {
    (4, 0, Probe::Health, m)
}

/// The message when something else holds the runtime's port.
pub open spec fn port_conflict() -> Seq<char> {
    "port 9191 is already in use but is not serving opcode-api; stop the conflicting process and retry"@
}

/// The message when the runtime started here never answers, by whether
/// its port is taken by then.
pub open spec fn unhealthy(port_taken: bool, log_path: Seq<char>) -> Seq<char> {
    (if port_taken {
        "opcode-api failed to become healthy on "@
    } else {
        "opcode-api did not become healthy on "@
    }) + DEFAULT_OPCODE_HEALTH@ + ". Check logs at "@ + log_path
}

/// Whether a stage waits for this kind of event.
pub open spec fn accepts(stage: LaunchStage, event: LaunchEvent) -> bool {
    match stage {
        LaunchStage::Spawning => event is Started,
        LaunchStage::Done => false,
        _ => event is Found,
    }
}

/// The launch: a runtime that already answers is used; if the port is
/// taken, the runtime there gets `EXISTING_HEALTH_CHECKS` health checks
/// 300 ms apart; a port still taken then is a conflict; otherwise the
/// runtime is started and gets `SPAWNED_HEALTH_CHECKS` checks a second
/// apart, after which the launch fails.
pub open spec fn launch_next(stage: LaunchStage, event: LaunchEvent, log_path: Seq<char>) -> (
    LaunchStage,
    (int, u64, Probe, Seq<char>),
) {
    match (stage, event) {
        (LaunchStage::FirstHealth, LaunchEvent::Found(true)) => (
            LaunchStage::Done,
            (2, 0, Probe::Health, seq![]),
        ),
        (LaunchStage::FirstHealth, LaunchEvent::Found(false)) => (
            LaunchStage::FirstPort,
            check(0, Probe::Port),
        ),
        (LaunchStage::FirstPort, LaunchEvent::Found(true)) => (
            LaunchStage::AwaitExisting(1),
            check(0, Probe::Health),
        ),
        (LaunchStage::FirstPort, LaunchEvent::Found(false)) => (
            LaunchStage::SecondPort,
            check(0, Probe::Port),
        ),
        (LaunchStage::AwaitExisting(_), LaunchEvent::Found(true)) => (
            LaunchStage::Done,
            (2, 0, Probe::Health, seq![]),
        ),
        (LaunchStage::AwaitExisting(n), LaunchEvent::Found(false)) => if n < EXISTING_HEALTH_CHECKS {
            (LaunchStage::AwaitExisting((n + 1) as u32), check(300, Probe::Health))
        } else {
            (LaunchStage::SecondPort, check(300, Probe::Port))
        },
        (LaunchStage::SecondPort, LaunchEvent::Found(true)) => (
            LaunchStage::Done,
            fail(port_conflict()),
        ),
        (LaunchStage::SecondPort, LaunchEvent::Found(false)) => (
            LaunchStage::Spawning,
            (1, 0, Probe::Health, seq![]),
        ),
        (LaunchStage::Spawning, LaunchEvent::Started) => (
            LaunchStage::AwaitSpawned(1),
            check(0, Probe::Health),
        ),
        (LaunchStage::AwaitSpawned(_), LaunchEvent::Found(true)) => (
            LaunchStage::Done,
            (3, 0, Probe::Health, seq![]),
        ),
        (LaunchStage::AwaitSpawned(n), LaunchEvent::Found(false)) => if n < SPAWNED_HEALTH_CHECKS {
            (LaunchStage::AwaitSpawned((n + 1) as u32), check(1000, Probe::Health))
        } else {
            (LaunchStage::LastPort, check(1000, Probe::Port))
        },
        (LaunchStage::LastPort, LaunchEvent::Found(taken)) => (
            LaunchStage::Done,
            fail(unhealthy(taken, log_path)),
        ),
        _ => (stage, fail(seq![])),
    }
}

/// The counters stay within their bounds.
pub open spec fn stage_ok(stage: LaunchStage) -> bool {
    match stage {
        LaunchStage::AwaitExisting(n) => 1 <= n <= EXISTING_HEALTH_CHECKS,
        LaunchStage::AwaitSpawned(n) => 1 <= n <= SPAWNED_HEALTH_CHECKS,
        _ => true,
    }
}

/// A measure that every step lowers.
pub open spec fn launch_rank(stage: LaunchStage) -> int {
    match stage {
        LaunchStage::FirstHealth => 100,
        LaunchStage::FirstPort => 99,
        LaunchStage::AwaitExisting(n) => 98 - n,
        LaunchStage::SecondPort => 40,
        LaunchStage::Spawning => 39,
        LaunchStage::AwaitSpawned(n) => 38 - n,
        LaunchStage::LastPort => 5,
        LaunchStage::Done => 0,
    }
}

impl OpcodeLaunch {
    pub closed spec fn stage(&self) -> LaunchStage {
        self.stage
    }

    pub closed spec fn log_path(&self) -> Seq<char> {
        self.log_path@
    }

    pub open spec fn wf(&self) -> bool {
        stage_ok(self.stage())
    }

    /// A launch whose runtime logs to `log_path`; the first thing to do is
    /// the health check that comes back with it.
    pub fn new(log_path: String) -> (r: (Self, LaunchAction))
        ensures
            r.0.wf(),
            r.0.stage() == LaunchStage::FirstHealth,
            r.0.log_path() == log_path@,
            r.1 == (LaunchAction::Check { pause_ms: 0, probe: Probe::Health }),
    {
        (
            OpcodeLaunch { stage: LaunchStage::FirstHealth, log_path },
            LaunchAction::Check { pause_ms: 0, probe: Probe::Health },
        )
    }

    /// Whether the launch is over.
    pub fn is_done(&self) -> (r: bool)
        ensures
            r == (self.stage() == LaunchStage::Done),
    {
        matches!(self.stage, LaunchStage::Done)
    }

    /// Takes what the caller found out and says what to do next.
    pub fn step(&mut self, event: LaunchEvent) -> (r: LaunchAction)
        requires
            old(self).wf(),
            accepts(old(self).stage(), event),
        ensures
            final(self).wf(),
            final(self).log_path() == old(self).log_path(),
            (final(self).stage(), launch_action_view(r)) == launch_next(
                old(self).stage(),
                event,
                old(self).log_path(),
            ),
    {
        let (stage, action) = match (self.stage, event) {
            (LaunchStage::FirstHealth, LaunchEvent::Found(true)) => (
                LaunchStage::Done,
                LaunchAction::UseExisting,
            ),
            (LaunchStage::FirstHealth, LaunchEvent::Found(false)) => (
                LaunchStage::FirstPort,
                LaunchAction::Check { pause_ms: 0, probe: Probe::Port },
            ),
            (LaunchStage::FirstPort, LaunchEvent::Found(true)) => (
                LaunchStage::AwaitExisting(1),
                LaunchAction::Check { pause_ms: 0, probe: Probe::Health },
            ),
            (LaunchStage::FirstPort, LaunchEvent::Found(false)) => (
                LaunchStage::SecondPort,
                LaunchAction::Check { pause_ms: 0, probe: Probe::Port },
            ),
            (LaunchStage::AwaitExisting(_), LaunchEvent::Found(true)) => (
                LaunchStage::Done,
                LaunchAction::UseExisting,
            ),
            (LaunchStage::AwaitExisting(n), LaunchEvent::Found(false)) => {
                if n < EXISTING_HEALTH_CHECKS {
                    (
                        LaunchStage::AwaitExisting(n + 1),
                        LaunchAction::Check { pause_ms: 300, probe: Probe::Health },
                    )
                } else {
                    (LaunchStage::SecondPort, LaunchAction::Check { pause_ms: 300, probe: Probe::Port })
                }
            },
            (LaunchStage::SecondPort, LaunchEvent::Found(true)) => (
                LaunchStage::Done,
                LaunchAction::Fail(
                    "port 9191 is already in use but is not serving opcode-api; stop the conflicting process and retry".to_owned(),
                ),
            ),
            (LaunchStage::SecondPort, LaunchEvent::Found(false)) => (
                LaunchStage::Spawning,
                LaunchAction::Spawn,
            ),
            (LaunchStage::Spawning, LaunchEvent::Started) => (
                LaunchStage::AwaitSpawned(1),
                LaunchAction::Check { pause_ms: 0, probe: Probe::Health },
            ),
            (LaunchStage::AwaitSpawned(_), LaunchEvent::Found(true)) => (
                LaunchStage::Done,
                LaunchAction::Ready,
            ),
            (LaunchStage::AwaitSpawned(n), LaunchEvent::Found(false)) => {
                if n < SPAWNED_HEALTH_CHECKS {
                    (
                        LaunchStage::AwaitSpawned(n + 1),
                        LaunchAction::Check { pause_ms: 1000, probe: Probe::Health },
                    )
                } else {
                    (LaunchStage::LastPort, LaunchAction::Check { pause_ms: 1000, probe: Probe::Port })
                }
            },
            (LaunchStage::LastPort, LaunchEvent::Found(taken)) => {
                let mut v: Vec<char> = Vec::new();
                if taken {
                    push_str(&mut v, "opcode-api failed to become healthy on ");
                } else {
                    push_str(&mut v, "opcode-api did not become healthy on ");
                }
                push_str(&mut v, DEFAULT_OPCODE_HEALTH);
                push_str(&mut v, ". Check logs at ");
                push_str(&mut v, self.log_path.as_str());
                assert(v@ =~= unhealthy(taken, self.log_path@));
                (LaunchStage::Done, LaunchAction::Fail(string_of(v.as_slice())))
            },
            _ => (self.stage, LaunchAction::Fail(String::new())),
        };
        self.stage = stage;
        action
    }
}

/// Every accepted event moves the launch forward: it ends after a bounded
/// number of probes.
pub proof fn lemma_launch_progresses(stage: LaunchStage, event: LaunchEvent, log_path: Seq<char>)
    requires
        stage_ok(stage),
        accepts(stage, event),
    ensures
        stage_ok(launch_next(stage, event, log_path).0),
        launch_rank(launch_next(stage, event, log_path).0) < launch_rank(stage),
        0 <= launch_rank(launch_next(stage, event, log_path).0),
{
}

/// The runtime is started only when no runtime answered and the port was
/// found free just before.
pub proof fn lemma_spawn_only_on_free_port(stage: LaunchStage, event: LaunchEvent, log_path: Seq<char>)
    requires
        launch_next(stage, event, log_path).1.0 == 1,
    ensures
        stage == LaunchStage::SecondPort,
        event == LaunchEvent::Found(false),
{
}

/// An existing runtime is used only when a health check found it before
/// anything was started; the launch reports ready only for the runtime it
/// started.
pub proof fn lemma_reuse_and_ready(stage: LaunchStage, event: LaunchEvent, log_path: Seq<char>)
    ensures
        launch_next(stage, event, log_path).1.0 == 2 ==> event == LaunchEvent::Found(true) && (stage
            == LaunchStage::FirstHealth || stage is AwaitExisting),
        launch_next(stage, event, log_path).1.0 == 3 ==> event == LaunchEvent::Found(true)
            && stage is AwaitSpawned,
{
}

} // verus!
