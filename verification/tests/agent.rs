use d1v_cli::agent::{
    codex_install_action, expand_home_path, missing_tool, no_installer, still_missing_message,
    tool_candidates, tool_found_message, InstallAction, MissingTool, RequiredCliTool,
};
use d1v_cli::agent::{
    configured_auto_expose_candidate_ports, detect_local_expose_ports, parse_listening_ports,
    runtime_log_path, upsert_binding, verified_terminal_base_url, AgentConfig,
    OpcodeRuntimeCapabilities, ProjectBinding, RuntimeTerminalBootstrap,
};

#[test]
fn parse_listening_ports_extracts_unique_ports() {
    let input = "\
127.0.0.1:3000\n\
*:5173\n\
localhost:3000\n\
[::1]:8787\n";
    assert_eq!(parse_listening_ports(input), vec![3000, 5173, 8787]);
}

#[test]
fn configured_auto_expose_candidate_ports_uses_env_override() {
    assert_eq!(configured_auto_expose_candidate_ports(Some("3000,5173,3000")), vec![3000, 5173]);
}

#[test]
fn candidate_ports_fall_back_to_defaults() {
    assert_eq!(
        configured_auto_expose_candidate_ports(None),
        vec![3000, 4173, 5173, 8000, 8787, 9000]
    );
    assert_eq!(
        configured_auto_expose_candidate_ports(Some(" , x")),
        vec![3000, 4173, 5173, 8000, 8787, 9000]
    );
}

#[test]
fn terminal_bootstrap_requires_complete_public_configuration() {
    let valid = RuntimeTerminalBootstrap {
        enabled: true,
        public_key: Some(" public\\nkey ".to_string()),
        issuer: "issuer".to_string(),
        audience: "audience".to_string(),
    }
    .validated();
    assert!(valid.enabled);
    assert_eq!(valid.public_key.as_deref(), Some("public\nkey"));

    let incomplete = RuntimeTerminalBootstrap {
        enabled: true,
        public_key: None,
        issuer: "issuer".to_string(),
        audience: "audience".to_string(),
    }
    .validated();
    assert!(!incomplete.enabled);
}

#[test]
fn terminal_bootstrap_rejects_blank_issuer() {
    let v = RuntimeTerminalBootstrap {
        enabled: true,
        public_key: Some("k".to_string()),
        issuer: "  ".to_string(),
        audience: "audience".to_string(),
    }
    .validated();
    assert!(!v.enabled);
    assert!(v.public_key.is_none());
}

#[test]
fn verified_terminal_url_requires_support_and_loopback() {
    let external = OpcodeRuntimeCapabilities {
        supports_terminal: true,
        terminal_base_url: Some("https://example.com".to_string()),
    };
    assert_eq!(verified_terminal_base_url(&external), None);
    let local = OpcodeRuntimeCapabilities {
        supports_terminal: true,
        terminal_base_url: Some("http://127.0.0.1:9191/".to_string()),
    };
    assert_eq!(
        verified_terminal_base_url(&local).as_deref(),
        Some("http://127.0.0.1:9191")
    );
    let unsupported = OpcodeRuntimeCapabilities {
        supports_terminal: false,
        terminal_base_url: Some("http://127.0.0.1:9191".to_string()),
    };
    assert_eq!(verified_terminal_base_url(&unsupported), None);
}

fn config() -> AgentConfig {
    AgentConfig {
        device_id: "device-1".to_string(),
        device_name: "host (linux)".to_string(),
        home_root: None,
        opcode_base_url: "http://127.0.0.1:9191".to_string(),
        project_bindings: vec![
            ProjectBinding { project_id: "a".to_string(), workspace_root: "/a".to_string() },
            ProjectBinding { project_id: "b".to_string(), workspace_root: "/b".to_string() },
        ],
    }
}

#[test]
fn upsert_binding_replaces_and_appends() {
    let mut c = config();
    upsert_binding(&mut c, "a", "/new");
    let ids: Vec<(String, String)> = c
        .project_bindings
        .iter()
        .map(|b| (b.project_id.clone(), b.workspace_root.clone()))
        .collect();
    assert_eq!(
        ids,
        vec![
            ("b".to_string(), "/b".to_string()),
            ("a".to_string(), "/new".to_string())
        ]
    );
}

#[test]
fn expose_ports_keep_opcode_port_first() {
    let ports = detect_local_expose_ports(9191, &vec![3000, 5173], &vec![5173, 22, 3000, 5173]);
    assert_eq!(ports, vec![9191, 5173, 3000]);
}

#[test]
fn runtime_log_path_prefers_home_root() {
    let mut c = config();
    assert_eq!(
        runtime_log_path(&c, Some("/home/u/.d1v")),
        "/home/u/.d1v/agent/home/logs/opcode-api.log"
    );
    c.home_root = Some("/srv/home".to_string());
    assert_eq!(runtime_log_path(&c, None), "/srv/home/logs/opcode-api.log");
}

fn codex_tool() -> RequiredCliTool {
    RequiredCliTool {
        label: "Codex".to_string(),
        binary: "codex".to_string(),
        env_override: Some("CODEX_BIN".to_string()),
        common_paths: vec![
            "/usr/local/bin/codex".to_string(),
            "/opt/homebrew/bin/codex".to_string(),
            "~/.local/bin/codex".to_string(),
        ],
    }
}

#[test]
fn tool_candidates_in_lookup_order() {
    let tool = codex_tool();
    let dirs = vec!["/usr/bin".to_string(), "/home/u/bin/".to_string()];
    assert_eq!(
        tool_candidates(&tool, &Some("/custom/codex".to_string()), &dirs, &Some("/home/u".to_string())),
        vec![
            "/custom/codex",
            "/usr/bin/codex",
            "/home/u/bin/codex",
            "/usr/local/bin/codex",
            "/opt/homebrew/bin/codex",
            "/home/u/.local/bin/codex",
        ]
    );
    let mut no_env = tool.clone();
    no_env.env_override = None;
    assert_eq!(
        tool_candidates(&no_env, &Some("/custom/codex".to_string()), &vec![], &None),
        vec!["/usr/local/bin/codex", "/opt/homebrew/bin/codex"]
    );
    assert_eq!(expand_home_path("~/x", &Some("/h/".to_string())), Some("/h/x".to_string()));
    assert_eq!(expand_home_path("/abs", &None), Some("/abs".to_string()));
    assert_eq!(expand_home_path("~/x", &None), None);
}

#[test]
fn missing_tool_decisions() {
    let shell = codex_install_action("linux");
    assert_eq!(
        shell,
        InstallAction::Shell {
            program: "sh".to_string(),
            args: vec!["-lc".to_string(), "curl -fsSL https://chatgpt.com/codex/install.sh | sh".to_string()],
            display: "curl -fsSL https://chatgpt.com/codex/install.sh | sh".to_string(),
        }
    );
    assert_eq!(
        missing_tool("Codex", &shell, false),
        MissingTool::Fail {
            message: "Codex is not installed and curl is missing. Install curl first, then rerun `d1v agent start`."
                .to_string()
        }
    );
    assert_eq!(
        missing_tool("Codex", &shell, true),
        MissingTool::Install {
            message: "Codex not found; installing with `curl -fsSL https://chatgpt.com/codex/install.sh | sh`".to_string()
        }
    );
    let win = codex_install_action("windows");
    assert_eq!(
        missing_tool("Codex", &win, true),
        MissingTool::Fail {
            message: "Codex not found. Codex on Windows should follow the official Windows guide or WSL flow: https://developers.openai.com/codex/windows".to_string()
        }
    );
    assert_eq!(
        codex_install_action("freebsd"),
        InstallAction::Unsupported {
            reason: "Codex automatic install is not configured for OS `freebsd`. Follow https://developers.openai.com/codex/cli".to_string()
        }
    );
    assert_eq!(
        no_installer("Thing"),
        InstallAction::Unsupported { reason: "no installer configured for Thing".to_string() }
    );
    assert_eq!(tool_found_message("Codex", "/usr/bin/codex", false), "found Codex at /usr/bin/codex");
    assert_eq!(tool_found_message("Codex", "/usr/bin/codex", true), "installed Codex at /usr/bin/codex");
    assert_eq!(
        still_missing_message(&codex_tool()),
        "Codex installer completed but `codex` is still not available on PATH/common locations."
    );
}
