use d1v_cli::node::image::{
    image_check_json, image_check_message, image_prune_json, image_prune_message,
    image_pull_json, image_status_json, image_status_text_of, update_available,
    RuntimeAgentImageState,
};
use d1v_cli::node::lifecycle::{
    agent_run_args, apply_opcode_image_override, confirmed, node_id_of, platform_key,
    runtime_agent_port, start_images, start_summary, target_image_ref, upgrade_json,
    upgrade_step, ContainerRuntimeConfig, UpgradeStep, DEFAULT_OPCODE_IMAGE,
    START_RUNTIME_AGENT_IMAGE, UPGRADE_RUNTIME_AGENT_IMAGE,
};
use d1v_cli::node::ingress::{configure_json, detect_json, ConfiguredIngress, DetectedIngress};
use d1v_cli::node::{logs_target, LogsTarget, StartArgs, UpgradeArgs};

fn start_args() -> StartArgs {
    StartArgs {
        key: Some("k-1".to_string()),
        control_plane: "https://api.d1v.ai".to_string(),
        node_id: None,
        max_opcode_containers: 10,
        agent_port: 8080,
        control_origin: None,
        auto_detect_public_ingress: false,
        ingress_provider: None,
        public_hostname: None,
        opcode_api_port: 8000,
        workspace_root: "/var/lib/d1v/workspaces".to_string(),
        runtime_agent_image: None,
        opcode_image: None,
        skip_pull: false,
        skip_docker_check: false,
        yes: false,
    }
}

fn upgrade_args() -> UpgradeArgs {
    UpgradeArgs {
        json: false,
        check: false,
        dry_run: false,
        yes: false,
        runtime_agent_image: None,
        opcode_image: None,
        keep_old_images: false,
    }
}

fn config(env: &[&str]) -> ContainerRuntimeConfig {
    ContainerRuntimeConfig {
        image_ref: "img:1".to_string(),
        env: env.iter().map(|s| s.to_string()).collect(),
        binds: vec!["/a:/a".to_string()],
        restart_policy_name: "unless-stopped".to_string(),
        network_mode: "host".to_string(),
    }
}

#[test]
fn confirmation_accepts_y_and_yes_in_any_case() {
    assert!(confirmed("y"));
    assert!(confirmed(" YES \n"));
    assert!(confirmed("Yes"));
    assert!(!confirmed(""));
    assert!(!confirmed("no"));
    assert!(!confirmed("yess"));
}

#[test]
fn platform_key_is_required() {
    assert_eq!(platform_key(&Some("abc".to_string())), Ok("abc".to_string()));
    assert_eq!(
        platform_key(&None),
        Err("Platform node key is required. Use --key or set D1V_PLATFORM_NODE_KEY env var".to_string())
    );
}

#[test]
fn start_images_fall_back_to_defaults() {
    let mut args = start_args();
    assert_eq!(
        start_images(&args),
        (START_RUNTIME_AGENT_IMAGE.to_string(), DEFAULT_OPCODE_IMAGE.to_string())
    );
    args.runtime_agent_image = Some("r:2".to_string());
    args.opcode_image = Some("o:3".to_string());
    assert_eq!(start_images(&args), ("r:2".to_string(), "o:3".to_string()));
}

#[test]
fn node_id_prefers_explicit_then_hostname_then_host() {
    let s = |x: &str| Some(x.to_string());
    assert_eq!(node_id_of(&s("n1"), &s("h1"), &s("h2")), "n1");
    assert_eq!(node_id_of(&None, &s("h1"), &s("h2")), "h1");
    assert_eq!(node_id_of(&None, &None, &s("h2")), "h2");
    assert_eq!(node_id_of(&None, &None, &None), "unknown-node");
}

#[test]
fn agent_run_args_carry_settings() {
    let args = start_args();
    let v = agent_run_args(&args, 8081, "key-9", "node-7", "/root", "agent:1", "opcode:1");
    assert_eq!(v[0], "run");
    assert_eq!(v[3], "d1v-runtime-agent-platform");
    assert_eq!(v[11], "/root/.docker:/root/.docker:ro");
    assert_eq!(v[13], "/var/lib/d1v/workspaces:/var/lib/d1v/workspaces");
    assert_eq!(v[15], "D1V_CONTROL_PLANE_URL=https://api.d1v.ai");
    assert_eq!(v[17], "D1V_RUNTIME_PLATFORM_NODE_KEY=key-9");
    assert_eq!(v[19], "D1V_RUNTIME_NODE_ID=node-7");
    assert_eq!(v[21], "D1V_RUNTIME_AGENT_PORT=8080");
    assert_eq!(v[23], "D1V_RUNTIME_AGENT_WS_PORT=8081");
    assert_eq!(v[27], "D1V_RUNTIME_MAX_OPCODE_CONTAINERS=10");
    assert_eq!(v[29], "D1V_OPCODE_IMAGE=opcode:1");
    assert_eq!(v.last().unwrap(), "agent:1");
    assert_eq!(v.len(), 31);
}

#[test]
fn start_summary_names_node_and_ports() {
    let args = start_args();
    let s = start_summary("node-7", &args, 8081);
    assert!(s.contains("  Node ID:           node-7\n"));
    assert!(s.contains("  Control Plane:     https://api.d1v.ai\n"));
    assert!(s.contains("d1v-runtime-agent-platform (ports 8080, 8081)"));
    assert!(s.contains("  Root:              /var/lib/d1v/workspaces\n"));
    assert!(s.ends_with("✓ Node is ready to accept workloads\n\n"));
}

#[test]
fn target_image_defaults_to_upgrade_image() {
    assert_eq!(target_image_ref(&None), UPGRADE_RUNTIME_AGENT_IMAGE);
    assert_eq!(target_image_ref(&Some("x:1".to_string())), "x:1");
}

#[test]
fn runtime_agent_port_reads_first_setting() {
    assert_eq!(runtime_agent_port(&config(&["A=1", "D1V_RUNTIME_AGENT_PORT=9090"])), 9090);
    assert_eq!(runtime_agent_port(&config(&["A=1"])), 8080);
    assert_eq!(runtime_agent_port(&config(&["D1V_RUNTIME_AGENT_PORT=abc"])), 8080);
    assert_eq!(
        runtime_agent_port(&config(&["D1V_RUNTIME_AGENT_PORT=7000", "D1V_RUNTIME_AGENT_PORT=7001"])),
        7000
    );
}

#[test]
fn opcode_image_override_replaces_or_appends() {
    let mut c = config(&["A=1", "D1V_OPCODE_IMAGE=old", "B=2"]);
    apply_opcode_image_override(&mut c, &Some("new:1".to_string()));
    assert_eq!(c.env, vec!["A=1", "D1V_OPCODE_IMAGE=new:1", "B=2"]);
    assert_eq!(c.image_ref, "img:1");

    let mut c = config(&["A=1"]);
    apply_opcode_image_override(&mut c, &Some("new:1".to_string()));
    assert_eq!(c.env, vec!["A=1", "D1V_OPCODE_IMAGE=new:1"]);

    let mut c = config(&["A=1", "D1V_OPCODE_IMAGE=old"]);
    apply_opcode_image_override(&mut c, &None);
    assert_eq!(c.env, vec!["A=1", "D1V_OPCODE_IMAGE=old"]);
}

#[test]
fn upgrade_steps_follow_flags() {
    let mut a = upgrade_args();
    assert_eq!(upgrade_step(&a, true), UpgradeStep::Upgrade { ask: true });
    assert_eq!(upgrade_step(&a, false), UpgradeStep::UpToDate);
    a.yes = true;
    assert_eq!(upgrade_step(&a, true), UpgradeStep::Upgrade { ask: false });
    a.dry_run = true;
    assert_eq!(upgrade_step(&a, true), UpgradeStep::DryRun);
    a.check = true;
    assert_eq!(upgrade_step(&a, false), UpgradeStep::CheckOnly { available: false });
    a.json = true;
    assert_eq!(upgrade_step(&a, true), UpgradeStep::ReportOnly);
    let mut b = upgrade_args();
    b.json = true;
    assert_eq!(upgrade_step(&b, true), UpgradeStep::Upgrade { ask: true });
    assert_eq!(upgrade_step(&b, false), UpgradeStep::ReportOnly);
}

#[test]
fn upgrade_json_reports_need() {
    let mut a = upgrade_args();
    a.check = true;
    let s = upgrade_json(&a, "img:2", "img:1", "sha256:a", "sha256:b");
    assert_eq!(
        s,
        "{\n  \"check_only\": true,\n  \"current_image_id\": \"sha256:a\",\n  \"current_image_ref\": \"img:1\",\n  \"dry_run\": false,\n  \"image_ref\": \"img:2\",\n  \"remote_digest\": \"sha256:b\",\n  \"upgrade_needed\": true\n}"
    );
    let s = upgrade_json(&a, "img:2", "img:1", "sha256:a", "sha256:a");
    assert!(s.ends_with("\"upgrade_needed\": false\n}"));
}

fn image_state(local: Option<&str>, remote: Option<&str>) -> RuntimeAgentImageState {
    RuntimeAgentImageState {
        image_ref: "ghcr.io/d1vai/d1v-runtime-agent:latest".to_string(),
        running_container_name: Some("d1v-runtime-agent-platform".to_string()),
        running_image_ref: None,
        local_image_id: local.map(|s| s.to_string()),
        remote_digest: remote.map(|s| s.to_string()),
    }
}

#[test]
fn update_available_needs_both_ids() {
    assert_eq!(update_available(&image_state(Some("a"), Some("b"))), Some(true));
    assert_eq!(update_available(&image_state(Some("a"), Some("a"))), Some(false));
    assert_eq!(update_available(&image_state(None, Some("a"))), None);
    assert_eq!(update_available(&image_state(Some("a"), None)), None);
}

#[test]
fn image_status_text_uses_dashes_for_unknowns() {
    let s = image_status_text_of(&image_state(Some("sha256:1"), None));
    assert_eq!(
        s,
        "Runtime-agent image status\n  Target image:      ghcr.io/d1vai/d1v-runtime-agent:latest\n  Running container: d1v-runtime-agent-platform\n  Running image:     -\n  Local image id:    sha256:1\n  Remote digest:     -\n  Update available:  unknown\n"
    );
}

#[test]
fn image_status_json_sorts_keys() {
    let s = image_status_json(&image_state(Some("a"), Some("b")));
    assert_eq!(
        s,
        "{\n  \"image_ref\": \"ghcr.io/d1vai/d1v-runtime-agent:latest\",\n  \"local_image_id\": \"a\",\n  \"remote_digest\": \"b\",\n  \"running_container_name\": \"d1v-runtime-agent-platform\",\n  \"running_image_ref\": null,\n  \"update_available\": true\n}"
    );
    let c = image_check_json(&image_state(None, None));
    assert_eq!(
        c,
        "{\n  \"image_ref\": \"ghcr.io/d1vai/d1v-runtime-agent:latest\",\n  \"local_image_id\": null,\n  \"remote_digest\": null,\n  \"update_available\": null\n}"
    );
}

#[test]
fn image_check_messages() {
    assert_eq!(image_check_message("x:1", Some(true)), "Runtime-agent update available for x:1");
    assert_eq!(image_check_message("x:1", Some(false)), "Runtime-agent image is up to date");
    assert_eq!(image_check_message("x:1", None), "Unable to determine whether x:1 is up to date");
}

#[test]
fn image_pull_and_prune_reports() {
    assert_eq!(
        image_pull_json("x:1", &Some("sha256:9".to_string()), true),
        "{\n  \"forced\": true,\n  \"image_ref\": \"x:1\",\n  \"local_image_id\": \"sha256:9\",\n  \"pulled\": true\n}"
    );
    assert_eq!(
        image_prune_json("x:1", &vec![]),
        "{\n  \"image_ref\": \"x:1\",\n  \"removed_image_ids\": []\n}"
    );
    assert_eq!(
        image_prune_json("x:1", &vec!["a".to_string(), "b".to_string()]),
        "{\n  \"image_ref\": \"x:1\",\n  \"removed_image_ids\": [\n    \"a\",\n    \"b\"\n  ]\n}"
    );
    assert_eq!(image_prune_message("x:1", 2), "Removed 2 old image(s) for x:1");
}

#[test]
fn logs_target_names() {
    assert_eq!(logs_target("agent"), Ok(LogsTarget::Agent));
    assert_eq!(logs_target("opcode-api"), Ok(LogsTarget::OpcodeApi));
    assert_eq!(logs_target("opcode_api"), Ok(LogsTarget::OpcodeApi));
    assert_eq!(logs_target("all"), Ok(LogsTarget::All));
    assert_eq!(
        logs_target("db"),
        Err("Invalid container 'db'. Use 'agent', 'opcode-api', or 'all'".to_string())
    );
}

#[test]
fn ingress_reports_as_json() {
    let c = DetectedIngress {
        provider: "caddy",
        hostname: "node.example.com".to_string(),
        scheme: "https".to_string(),
        external_port: 443,
        upstream_host: "127.0.0.1".to_string(),
        upstream_port: 8080,
        config_path: "/etc/caddy/Caddyfile".to_string(),
        confidence: 90,
    };
    assert_eq!(
        detect_json(&Some(c), "https://node.example.com"),
        "{\"config_path\":\"/etc/caddy/Caddyfile\",\"confidence\":90,\"detected\":true,\"external_port\":443,\"hostname\":\"node.example.com\",\"origin\":\"https://node.example.com\",\"provider\":\"caddy\",\"scheme\":\"https\",\"upstream_host\":\"127.0.0.1\",\"upstream_port\":8080}"
    );
    assert_eq!(detect_json(&None, ""), "{\"detected\":false}");
    let k = ConfiguredIngress {
        provider: "nginx",
        hostname: "n.example.com".to_string(),
        config_path: "/etc/nginx/sites-enabled/x.conf".to_string(),
    };
    assert_eq!(
        configure_json(&k),
        "{\"config_path\":\"/etc/nginx/sites-enabled/x.conf\",\"configured\":true,\"hostname\":\"n.example.com\",\"provider\":\"nginx\"}"
    );
}
