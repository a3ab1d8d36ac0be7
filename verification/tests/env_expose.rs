use d1v_cli::env::{KeyValue, ProjectArgs, ProjectError};
use d1v_cli::expose::{cli_expose_body, cli_relay_config, expose_port, node_expose_body, ExposeArgs, ExposePortArgs};
use d1v_cli::expose::{
    cli_free_device_id, control_url, default_cli_free_device_name, runtime_agent_base_url,
    should_fallback_to_cli_relay,
};

#[test]
fn project_args_resolve() {
    let given = ProjectArgs { project_id: Some("  p1 ".into()) };
    assert!(!given.needs_binding());
    assert_eq!(given.resolve(Ok(None)).unwrap(), "p1");
    assert_eq!(given.resolve(Err("unreadable workspace".into())).unwrap(), "p1");
    let blank = ProjectArgs { project_id: Some("  ".into()) };
    assert!(blank.needs_binding());
    assert_eq!(blank.resolve(Ok(Some("bound".into()))).unwrap(), "bound");
    assert_eq!(
        ProjectArgs { project_id: None }.resolve(Ok(None)).unwrap_err(),
        ProjectError::ProjectRequired
    );
    assert_eq!(
        ProjectArgs { project_id: None }.resolve(Err("bad binding file".into())).unwrap_err(),
        ProjectError::Lookup("bad binding file".into())
    );
}

#[test]
fn key_value_parsing() {
    let kv = KeyValue::parse("A=b=c").unwrap();
    assert_eq!(kv.key(), "A");
    assert_eq!(kv.value(), "b=c");
    assert_eq!(kv.to_string(), "A=b=c");
    assert_eq!(
        KeyValue::parse("novalue").unwrap_err(),
        "expected KEY=value format, got: novalue"
    );
}

#[test]
fn free_device_ids() {
    assert_eq!(cli_free_device_id(" cli-free-abc ", "x"), "cli-free-abc");
    assert_eq!(cli_free_device_id("dev-Host_1", "x"), "cli-free-Host-1");
    assert_eq!(cli_free_device_id("dev-", "x"), "cli-free-dev");
    assert_eq!(cli_free_device_id("***", "f00d"), "cli-free-f00d");
}

#[test]
fn cli_free_device_id_is_derived_once() {
    for base in ["dev-abc123", "  my host.local ", "cli-free-x", "***", "-a-"] {
        let once = cli_free_device_id(base, "f00d");
        assert!(once.starts_with("cli-free-"));
        assert_eq!(cli_free_device_id(&once, "other"), once);
    }
    assert_eq!(cli_free_device_id("dev-abc123", "f00d"), "cli-free-abc123");
    assert_eq!(cli_free_device_id("  my host.local ", "f00d"), "cli-free-my-host-local");
}

#[test]
fn agent_urls_and_names() {
    assert_eq!(runtime_agent_base_url(None), "http://127.0.0.1:8080");
    assert_eq!(runtime_agent_base_url(Some("http://h:1//")), "http://h:1");
    assert_eq!(runtime_agent_base_url(Some("  ")), "http://127.0.0.1:8080");
    assert_eq!(
        control_url("http://h", "/control/runtime/exposes"),
        "http://h/control/runtime/exposes"
    );
    assert_eq!(default_cli_free_device_name(Some("box")), "CLI free expose (box)");
    assert_eq!(default_cli_free_device_name(None), "CLI free expose");
    assert!(should_fallback_to_cli_relay("tcp connect error: Connection refused"));
    assert!(!should_fallback_to_cli_relay("404 Not Found"));
}

#[test]
fn expose_request_bodies() {
    let args = ExposePortArgs {
        port: 3000,
        project_id: Some("p1".to_string()),
        hostname: None,
        node_id: Some("n1".to_string()),
        host_port: Some(8000),
    };
    assert_eq!(
        node_expose_body(&args),
        "{\"container_port\":3000,\"created_by\":\"d1v-cli\",\"host_port\":8000,\"node_id\":\"n1\",\"project_id\":\"p1\",\"protocol\":\"http\"}"
    );
    let bare = ExposePortArgs { port: 80, project_id: None, hostname: None, node_id: None, host_port: None };
    assert_eq!(node_expose_body(&bare), "{\"container_port\":80,\"created_by\":\"d1v-cli\",\"protocol\":\"http\"}");
    assert_eq!(
        cli_expose_body("cli-free-abc", 5173, &None, &Some("app.example.com".to_string())),
        "{\"container_id\":\"cli-free-abc\",\"container_port\":5173,\"host_port\":5173,\"hostname\":\"app.example.com\",\"node_id\":\"customer-cli-free-abc\",\"protocol\":\"http\"}"
    );
}

#[test]
fn cli_relay_configuration() {
    let base = d1v_cli::agent::AgentConfig {
        device_id: "dev-laptop".to_string(),
        device_name: "Laptop".to_string(),
        home_root: Some("/home/u".to_string()),
        opcode_base_url: "http://127.0.0.1:9191".to_string(),
        project_bindings: vec![],
    };
    let c = cli_relay_config(base, 3000, "x1", Some("box"));
    assert_eq!(c.device_id, "cli-free-laptop");
    assert_eq!(c.device_name, "CLI free expose (box)");
    assert_eq!(c.opcode_base_url, "http://127.0.0.1:3000");
    assert_eq!(c.home_root.as_deref(), Some("/home/u"));
    let missing = ExposeArgs { port: None, command: None, project_id: None, hostname: None, node_id: None, host_port: None };
    assert_eq!(expose_port(&missing), Err("missing expose port".to_string()));
}
