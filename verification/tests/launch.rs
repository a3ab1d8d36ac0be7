use d1v_cli::agent::{AgentConfig, OpcodeRuntimeCapabilities, RuntimeTerminalBootstrap, DEFAULT_OPCODE_BASE};
use d1v_cli::customer::{
    customer_node_id, expose_body, heartbeat_body, pairing_body, ports_to_expose,
    registration_body, runtime_node_capabilities, ExposeRow,
};
use d1v_cli::launch::{
    agent_workspace_root, runtime_environment, terminal_environment, LaunchAction, LaunchEvent,
    OpcodeLaunch, Probe,
};

fn test_agent_config() -> AgentConfig {
    AgentConfig {
        device_id: "device-1".to_string(),
        device_name: "Test".to_string(),
        home_root: Some("/tmp/d1v".to_string()),
        opcode_base_url: DEFAULT_OPCODE_BASE.to_string(),
        project_bindings: vec![],
    }
}

fn env_value(env: &[(String, String)], name: &str) -> Option<String> {
    env.iter().find(|(k, _)| k == name).map(|(_, v)| v.clone())
}

#[test]
fn terminal_bootstrap_configures_managed_runtime_environment() {
    let config = test_agent_config();
    let bootstrap = RuntimeTerminalBootstrap {
        enabled: true,
        public_key: Some("public-key".to_string()),
        issuer: "issuer".to_string(),
        audience: "audience".to_string(),
    };
    let env = terminal_environment(&config.device_id, &bootstrap);
    assert_eq!(env_value(&env, "OPCODE_RUNTIME_NODE_ID").as_deref(), Some("customer-device-1"));
    assert_eq!(env_value(&env, "D1V_SHELL_ENABLED").as_deref(), Some("1"));
    assert_eq!(env_value(&env, "D1V_SHELL_TICKET_PUBLIC_KEY").as_deref(), Some("public-key"));
    assert_eq!(env_value(&env, "D1V_SHELL_TICKET_ISSUER").as_deref(), Some("issuer"));
    assert_eq!(env_value(&env, "D1V_SHELL_TICKET_AUDIENCE").as_deref(), Some("audience"));
}

#[test]
fn disabled_terminal_only_names_the_node() {
    let env = terminal_environment("d", &RuntimeTerminalBootstrap::disabled());
    assert_eq!(
        env,
        vec![
            ("OPCODE_RUNTIME_NODE_ID".to_string(), "customer-d".to_string()),
            ("D1V_SHELL_ENABLED".to_string(), "0".to_string()),
        ]
    );
}

#[test]
fn runtime_environment_lists_managed_mode_then_terminal() {
    let config = test_agent_config();
    let root = agent_workspace_root(&config, Some("/home/u/.d1v"));
    assert_eq!(root, "/tmp/d1v");
    let mut homeless = test_agent_config();
    homeless.home_root = None;
    assert_eq!(agent_workspace_root(&homeless, Some("/home/u/.d1v")), "/home/u/.d1v/agent/home");
    assert_eq!(agent_workspace_root(&homeless, None), ".d1v/agent/home");
    let env = runtime_environment(
        &config,
        &root,
        "wss://api.d1v.ai/control",
        &RuntimeTerminalBootstrap::disabled(),
    );
    let keys: Vec<&str> = env.iter().map(|(k, _)| k.as_str()).collect();
    assert_eq!(
        keys,
        vec![
            "WORKSPACE_ROOT",
            "OPCODE_RUNTIME_MODE",
            "OPCODE_DEVICE_ID",
            "OPCODE_CLOUD_CONTROL_URL",
            "OPCODE_RUNTIME_NODE_ID",
            "D1V_SHELL_ENABLED",
        ]
    );
    assert_eq!(env_value(&env, "OPCODE_RUNTIME_MODE").as_deref(), Some("cloud-managed"));
    assert_eq!(env_value(&env, "OPCODE_CLOUD_CONTROL_URL").as_deref(), Some("wss://api.d1v.ai/control"));
}

#[test]
fn healthy_runtime_is_reused_at_once() {
    let (mut launch, first) = OpcodeLaunch::new("/tmp/log".to_string());
    assert_eq!(first, LaunchAction::Check { pause_ms: 0, probe: Probe::Health });
    assert_eq!(launch.step(LaunchEvent::Found(true)), LaunchAction::UseExisting);
    assert!(launch.is_done());
}

#[test]
fn free_port_leads_to_spawn_and_ready() {
    let (mut launch, _) = OpcodeLaunch::new("/tmp/log".to_string());
    assert_eq!(
        launch.step(LaunchEvent::Found(false)),
        LaunchAction::Check { pause_ms: 0, probe: Probe::Port }
    );
    assert_eq!(
        launch.step(LaunchEvent::Found(false)),
        LaunchAction::Check { pause_ms: 0, probe: Probe::Port }
    );
    assert_eq!(launch.step(LaunchEvent::Found(false)), LaunchAction::Spawn);
    assert_eq!(
        launch.step(LaunchEvent::Started),
        LaunchAction::Check { pause_ms: 0, probe: Probe::Health }
    );
    assert_eq!(
        launch.step(LaunchEvent::Found(false)),
        LaunchAction::Check { pause_ms: 1000, probe: Probe::Health }
    );
    assert_eq!(launch.step(LaunchEvent::Found(true)), LaunchAction::Ready);
    assert!(launch.is_done());
}

#[test]
fn occupied_port_waits_ten_checks_then_conflicts() {
    let (mut launch, _) = OpcodeLaunch::new("/tmp/log".to_string());
    launch.step(LaunchEvent::Found(false));
    assert_eq!(
        launch.step(LaunchEvent::Found(true)),
        LaunchAction::Check { pause_ms: 0, probe: Probe::Health }
    );
    let mut health_checks = 1;
    loop {
        match launch.step(LaunchEvent::Found(false)) {
            LaunchAction::Check { pause_ms: 300, probe: Probe::Health } => health_checks += 1,
            LaunchAction::Check { pause_ms: 300, probe: Probe::Port } => break,
            other => panic!("unexpected {other:?}"),
        }
    }
    assert_eq!(health_checks, 10);
    assert_eq!(
        launch.step(LaunchEvent::Found(true)),
        LaunchAction::Fail(
            "port 9191 is already in use but is not serving opcode-api; stop the conflicting process and retry"
                .to_string()
        )
    );
}

#[test]
fn spawned_runtime_gets_twenty_checks_then_fails_with_log_path() {
    let (mut launch, _) = OpcodeLaunch::new("/tmp/d1v/logs/opcode-api.log".to_string());
    launch.step(LaunchEvent::Found(false));
    launch.step(LaunchEvent::Found(false));
    assert_eq!(launch.step(LaunchEvent::Found(false)), LaunchAction::Spawn);
    launch.step(LaunchEvent::Started);
    let mut health_checks = 1;
    loop {
        match launch.step(LaunchEvent::Found(false)) {
            LaunchAction::Check { pause_ms: 1000, probe: Probe::Health } => health_checks += 1,
            LaunchAction::Check { pause_ms: 1000, probe: Probe::Port } => break,
            other => panic!("unexpected {other:?}"),
        }
    }
    assert_eq!(health_checks, 20);
    assert_eq!(
        launch.step(LaunchEvent::Found(false)),
        LaunchAction::Fail(
            "opcode-api did not become healthy on http://127.0.0.1:9191/health. Check logs at /tmp/d1v/logs/opcode-api.log"
                .to_string()
        )
    );
}

#[test]
fn runtime_registration_only_advertises_verified_terminal_capability() {
    let config = test_agent_config();
    let disabled: serde_json::Value = serde_json::from_str(&runtime_node_capabilities(
        &config,
        &OpcodeRuntimeCapabilities { supports_terminal: false, terminal_base_url: None },
    ))
    .unwrap();
    assert_eq!(disabled["device_id"], "device-1");
    assert!(disabled.get("supports_terminal").is_none());
    assert!(disabled.get("terminal_base_url").is_none());

    let external: serde_json::Value = serde_json::from_str(&runtime_node_capabilities(
        &config,
        &OpcodeRuntimeCapabilities {
            supports_terminal: true,
            terminal_base_url: Some("https://example.com".to_string()),
        },
    ))
    .unwrap();
    assert!(external.get("supports_terminal").is_none());

    let enabled: serde_json::Value = serde_json::from_str(&runtime_node_capabilities(
        &config,
        &OpcodeRuntimeCapabilities {
            supports_terminal: true,
            terminal_base_url: Some("http://127.0.0.1:9191/".to_string()),
        },
    ))
    .unwrap();
    assert_eq!(enabled["supports_terminal"], true);
    assert_eq!(enabled["terminal_base_url"], "http://127.0.0.1:9191");
}

#[test]
fn node_bodies_are_exact_json() {
    assert_eq!(customer_node_id("d1"), "customer-d1");
    assert_eq!(
        heartbeat_body("d1"),
        r#"{"node_id":"customer-d1","status":"online","used_slots":0}"#
    );
    assert_eq!(
        expose_body("d1", 5173),
        r#"{"container_id":"d1","container_port":5173,"host_port":5173,"node_id":"customer-d1","protocol":"http"}"#
    );
    let config = test_agent_config();
    let registration = registration_body(
        &config,
        &OpcodeRuntimeCapabilities { supports_terminal: false, terminal_base_url: None },
    );
    assert_eq!(
        registration,
        r#"{"capabilities":{"device_id":"device-1","runtime":"opcode-api","transport":"relay"},"cpu_cores":0,"disk_gb":0,"ingress_mode":"reverse_relay","memory_mb":0,"node_id":"customer-device-1","region":"local","total_slots":1,"version":"dev"}"#
    );
    let pairing: serde_json::Value =
        serde_json::from_str(&pairing_body("CODE-1", &config, "linux")).unwrap();
    assert_eq!(pairing["pairing_code"], "CODE-1");
    assert_eq!(pairing["public_key"], "local-agent-device-1");
    assert_eq!(pairing["capabilities"]["home_root"], "/tmp/d1v");
    assert_eq!(pairing["workspace_root"], "/tmp/d1v");
    assert_eq!(pairing["os_type"], "linux");
    let mut homeless = config.clone();
    homeless.home_root = None;
    let pairing: serde_json::Value =
        serde_json::from_str(&pairing_body("C", &homeless, "macos")).unwrap();
    assert!(pairing["workspace_root"].is_null());
}

#[test]
fn only_uncovered_ports_are_exposed() {
    let rows = vec![
        ExposeRow { container_port: Some(3000), status: Some("active".to_string()) },
        ExposeRow { container_port: Some(5173), status: Some("failed".to_string()) },
        ExposeRow { container_port: Some(65536 + 8787), status: Some("pending".to_string()) },
        ExposeRow { container_port: None, status: Some("active".to_string()) },
    ];
    assert_eq!(ports_to_expose(&vec![3000, 5173, 8787, 9000], &rows), vec![5173, 9000]);
    assert_eq!(ports_to_expose(&vec![3000], &vec![]), vec![3000]);
}
