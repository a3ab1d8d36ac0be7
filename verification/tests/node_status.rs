use d1v_cli::node::docker::{ContainerInfo, ContainerStats};
use d1v_cli::node::status::{format_status, node_status, node_status_json};

fn info(name: &str, status: &str, ports: &str) -> ContainerInfo {
    ContainerInfo {
        id: "abc123".to_string(),
        name: name.to_string(),
        status: status.to_string(),
        image: "ghcr.io/d1vai/d1v-runtime-agent:latest".to_string(),
        ports: ports.to_string(),
    }
}

fn stats() -> ContainerStats {
    ContainerStats {
        cpu_percent: "1.5%".to_string(),
        mem_usage: "100MiB".to_string(),
        mem_limit: "2GiB".to_string(),
        mem_percent: "4.9%".to_string(),
    }
}

#[test]
fn status_marks_follow_docker_status() {
    assert_eq!(format_status("Up 2 hours"), "✅ Up 2 hours");
    assert_eq!(format_status("Exited (0) 1 minute ago"), "❌ Exited (0) 1 minute ago");
    assert_eq!(format_status("Restarting"), "⚠️  Restarting");
}

#[test]
fn running_agent_shows_usage_and_host_network() {
    let agent = Some(info("d1v-runtime-agent-platform", "Up 5 minutes", ""));
    let text = node_status(&agent, &Some(stats()), &None, &None);
    let rule = "═".repeat(63);
    let expected = format!(
        "D1V Platform Node Status\n{rule}\n\nRuntime Agent:\n  Container:  d1v-runtime-agent-platform\n  Status:     ✅ Up 5 minutes\n  Image:      ghcr.io/d1vai/d1v-runtime-agent:latest\n  Ports:      host network\n  CPU:        1.5%\n  Memory:     100MiB / 2GiB (4.9%)\n\nOpcode API:\n  Status:     ℹ️  Not found (optional)\n\nOverall Status: ✅ RUNNING\n"
    );
    assert_eq!(text, expected);
}

#[test]
fn stopped_agent_hides_usage_and_reports_stopped() {
    let agent = Some(info("a", "Exited (1)", "8080/tcp"));
    let opcode = Some(info("d1v-opcode-api", "Up 1 second", ""));
    let text = node_status(&agent, &Some(stats()), &opcode, &None);
    assert!(text.contains("  Ports:      8080/tcp\n"));
    assert!(!text.contains("CPU:"));
    assert!(text.contains("Opcode API:\n  Container:  d1v-opcode-api\n"));
    assert!(text.contains("  Ports:      \n"));
    assert!(text.ends_with("Overall Status: ❌ STOPPED\n"));
    let missing = node_status(&None, &None, &None, &None);
    assert!(missing.contains("Runtime Agent:\n  Status:     ❌ Not found\n\n"));
}

#[test]
fn status_json_matches_pretty_serde_output() {
    let agent = Some(info("agent", "Up 1 minute", "")); 
    let text = node_status_json(&agent, &None);
    let mut runtime = serde_json::Map::new();
    for (k, v) in [
        ("name", "agent"),
        ("id", "abc123"),
        ("status", "Up 1 minute"),
        ("image", "ghcr.io/d1vai/d1v-runtime-agent:latest"),
        ("ports", ""),
    ] {
        runtime.insert(k.to_string(), serde_json::Value::String(v.to_string()));
    }
    runtime.insert("running".to_string(), serde_json::Value::Bool(true));
    let mut opcode = serde_json::Map::new();
    opcode.insert("status".to_string(), serde_json::Value::String("not_found".to_string()));
    opcode.insert("running".to_string(), serde_json::Value::Bool(false));
    let mut root = serde_json::Map::new();
    root.insert("runtime_agent".to_string(), serde_json::Value::Object(runtime));
    root.insert("opcode_api".to_string(), serde_json::Value::Object(opcode));
    let expected = serde_json::to_string_pretty(&serde_json::Value::Object(root)).unwrap();
    assert_eq!(text, expected);
}
