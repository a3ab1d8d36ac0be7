use d1v_cli::node::inspect::{container_labels, npm_configured_path, npm_mount_paths};
use d1v_cli::node::ingress::{ingress_provider, build_npm_upsert_script, npm_configured, npm_proxy_host_paths, origin, DetectedIngress, DockerMount};
use d1v_cli::node::docker::{after_failed_pull, docker_failure, docker_problem_message, parse_image_rows, parse_used_image_ids, pull_plan, DockerProblem, PullPlan};
use d1v_cli::node::docker::{
    estimate_resources, get_container_info, get_container_stats, image_repository,
    is_container_running, remove_container, select_old_image_ids_to_remove, stop_container,
};
use d1v_cli::node::ingress::{
    choose_hostname, configure_public_ingress, detect_public_ingress, ingress_provider_requested,
    is_local_host, public_ingress_hostname,
    nginx_site_plan, parse_caddy_content, parse_host_port, parse_listen_port,
    parse_nginx_like_content, parse_npm_container_from_output, parse_traefik_hosts,
    render_managed_nginx_config, safe_file_slug, sanitize_host, traefik_candidate, IngressError,
    IngressPlan, IngressSources, NginxSitePlan,
};
use d1v_cli::node::{containers_to_stop, StopArgs};

#[test]
fn image_repository_strips_tag_but_keeps_registry_port() {
    assert_eq!(
        image_repository("ghcr.io/d1vai/d1v-runtime-agent:latest"),
        "ghcr.io/d1vai/d1v-runtime-agent"
    );
    assert_eq!(
        image_repository("299000395210.dkr.ecr.ap-southeast-1.amazonaws.com/d1v-opcode:latest"),
        "299000395210.dkr.ecr.ap-southeast-1.amazonaws.com/d1v-opcode"
    );
    assert_eq!(
        image_repository("localhost:5000/example/image:dev"),
        "localhost:5000/example/image"
    );
    assert_eq!(
        image_repository("ghcr.io/d1vai/d1v-runtime-agent@sha256:abc"),
        "ghcr.io/d1vai/d1v-runtime-agent"
    );
}

#[test]
fn select_old_image_ids_to_remove_skips_current_and_used_images() {
    let image_rows = vec![
        (
            "ghcr.io/d1vai/d1v-runtime-agent:latest".to_string(),
            "sha256:current".to_string(),
        ),
        (
            "ghcr.io/d1vai/d1v-runtime-agent:old".to_string(),
            "sha256:old-unused".to_string(),
        ),
        (
            "ghcr.io/d1vai/d1v-runtime-agent:older".to_string(),
            "sha256:old-used".to_string(),
        ),
        (
            "ghcr.io/d1vai/opcode-api:latest".to_string(),
            "sha256:opcode".to_string(),
        ),
    ];
    let used_image_ids = vec!["sha256:old-used".to_string()];

    let removable = select_old_image_ids_to_remove(
        "ghcr.io/d1vai/d1v-runtime-agent",
        "sha256:current",
        &image_rows,
        &used_image_ids,
    );

    assert_eq!(removable, vec!["sha256:old-unused".to_string()]);
}

#[test]
fn stale_ids_are_listed_once() {
    let rows = vec![
        ("r:a".to_string(), "id1".to_string()),
        ("r:b".to_string(), "id1".to_string()),
        ("r:c".to_string(), "id2".to_string()),
    ];
    assert_eq!(
        select_old_image_ids_to_remove("r", "cur", &rows, &vec![]),
        vec!["id1".to_string(), "id2".to_string()]
    );
}

#[test]
fn container_output_parsing() {
    assert!(is_container_running(b"abc\n"));
    assert!(!is_container_running(b""));
    let info = get_container_info("id1|name|Up 2h|img:1|0.0.0.0:80->80/tcp\n").unwrap();
    assert_eq!(info.id, "id1");
    assert_eq!(info.ports, "0.0.0.0:80->80/tcp");
    assert!(get_container_info("a|b").is_none());
    assert!(get_container_info("  \n").is_none());
    let stats = get_container_stats("1.5%|10MiB / 2GiB|0.5%").unwrap();
    assert_eq!(stats.cpu_percent, "1.5%");
    assert_eq!(stats.mem_usage, "10MiB");
    assert_eq!(stats.mem_limit, "2GiB");
    assert_eq!(stats.mem_percent, "0.5%");
    let no_limit = get_container_stats("1%|10MiB|2%").unwrap();
    assert_eq!(no_limit.mem_limit, "0B");
}

#[test]
fn docker_commands() {
    let kill = stop_container("n", true);
    assert_eq!(kill.args, vec!["kill".to_string(), "n".to_string()]);
    assert_eq!(kill.action, "stop container n");
    let stop = stop_container("n", false);
    assert_eq!(stop.args, vec!["stop".to_string(), "n".to_string()]);
    let rm = remove_container("n");
    assert_eq!(rm.args, vec!["rm".to_string(), "-f".to_string(), "n".to_string()]);
    assert_eq!(
        containers_to_stop(&StopArgs { agent: false, opcode_api: false, force: false, remove: false }),
        (true, true)
    );
    assert_eq!(
        containers_to_stop(&StopArgs { agent: true, opcode_api: false, force: false, remove: false }),
        (true, false)
    );
}

#[test]
fn estimate_resources_per_container() {
    let (cpu, mem, disk) = estimate_resources(3);
    assert_eq!(cpu, "1.1 CPU cores");
    assert_eq!(mem, "500 MB RAM");
    assert_eq!(disk, "8 GB disk space");
    let (cpu0, _, _) = estimate_resources(0);
    assert_eq!(cpu0, "0.5 CPU cores");
}

#[test]
fn parse_caddy_https_reverse_proxy() {
    let content = "https://node-a.example.com {\n    reverse_proxy 127.0.0.1:8080\n}\n";

    let detected =
        parse_caddy_content(content, "/etc/caddy/Caddyfile".to_string(), 8080, None).unwrap();

    assert_eq!(detected.provider, "caddy");
    assert_eq!(detected.hostname, "node-a.example.com");
    assert_eq!(detected.scheme, "https");
    assert_eq!(detected.external_port, 443);
}

#[test]
fn parse_nginx_https_proxy_pass() {
    let content = "server {\n    listen 443 ssl;\n    server_name node-b.example.com;\n    location / {\n        proxy_pass http://127.0.0.1:8080;\n    }\n}\n";

    let detected = parse_nginx_like_content(
        "nginx",
        content,
        "/etc/nginx/sites-enabled/node.conf".to_string(),
        8080,
        None,
    )
    .unwrap();

    assert_eq!(detected.provider, "nginx");
    assert_eq!(detected.hostname, "node-b.example.com");
    assert_eq!(detected.scheme, "https");
    assert_eq!(detected.external_port, 443);
}

#[test]
fn parse_npm_non_default_port() {
    let content = "server {\n    listen 8088;\n    server_name npm-node.example.com;\n    location / {\n        proxy_pass http://localhost:8080;\n    }\n}\n";

    let detected = parse_nginx_like_content(
        "npm",
        content,
        "/data/nginx/proxy_host/1.conf".to_string(),
        8080,
        None,
    )
    .unwrap();

    assert_eq!(detected.provider, "npm");
    assert_eq!(detected.hostname, "npm-node.example.com");
    assert_eq!(detected.scheme, "http");
    assert_eq!(detected.external_port, 8088);
    assert_eq!(detected.confidence, 82);
}

#[test]
fn nginx_ignores_other_ports_and_remote_upstreams() {
    let other = "server {\n  server_name a.example.com;\n  proxy_pass http://127.0.0.1:9999;\n}\n";
    assert!(parse_nginx_like_content("nginx", other, "p".into(), 8080, None).is_none());
    let remote = "server {\n  server_name a.example.com;\n  proxy_pass http://10.0.0.1:8080;\n}\n";
    assert!(parse_nginx_like_content("nginx", remote, "p".into(), 8080, None).is_none());
    let outside = "server_name a.example.com;\nproxy_pass http://127.0.0.1:8080;\n";
    assert!(parse_nginx_like_content("nginx", outside, "p".into(), 8080, None).is_none());
}

#[test]
fn parse_traefik_host_rule() {
    let hosts = parse_traefik_hosts("Host(`node-c.example.com`,`node-c2.example.com`)");
    assert_eq!(hosts, vec!["node-c.example.com", "node-c2.example.com"]);
}

#[test]
fn preferred_hostname_wins() {
    let hosts = vec![
        "b.example.com".to_string(),
        "a.example.com".to_string(),
        "c.example.com".to_string(),
    ];
    let selected = choose_hostname(&hosts, Some("c.example.com"), true).unwrap();
    assert_eq!(selected, "c.example.com");
}

#[test]
fn least_dotted_hostname_without_preference() {
    let hosts = vec!["localhost".to_string(), "b.example.com".to_string(), "a.example.com".to_string()];
    assert_eq!(choose_hostname(&hosts, None, false).as_deref(), Some("a.example.com"));
    let plain = vec!["x".to_string(), "y".to_string()];
    assert_eq!(choose_hostname(&plain, Some("z"), true).as_deref(), Some("x"));
    assert_eq!(choose_hostname(&[], None, true), None);
}

#[test]
fn parse_npm_container_prefers_nginx_proxy_manager_image() {
    let parsed = parse_npm_container_from_output(
        "npm-app\tjc21/nginx-proxy-manager:latest\nother\tnginx:latest\n",
    )
    .unwrap();
    assert_eq!(parsed.name, "npm-app");
}

#[test]
fn safe_file_slug_normalizes_hostname() {
    assert_eq!(
        safe_file_slug("Runtime.Node.Example.COM"),
        "runtime-node-example-com"
    );
}

#[test]
fn render_managed_nginx_config_contains_proxy_headers() {
    let rendered = render_managed_nginx_config("node.example.com", 8080);
    assert!(rendered.contains("server_name node.example.com;"));
    assert!(rendered.contains("proxy_pass http://127.0.0.1:8080;"));
    assert!(rendered.contains("proxy_set_header Upgrade $http_upgrade;"));
}

#[test]
fn host_and_port_helpers() {
    assert_eq!(sanitize_host("  https://Node.Example.com.; "), "node.example.com");
    assert_eq!(parse_host_port("http://127.0.0.1:8080 extra"), Some(("127.0.0.1".to_string(), 8080)));
    assert_eq!(parse_host_port("127.0.0.1"), None);
    assert_eq!(parse_listen_port("listen [::]:8443 ssl;"), Some(8443));
    assert_eq!(parse_listen_port("listen ssl;"), None);
    assert!(is_local_host(" LOCALHOST "));
    assert!(!is_local_host("10.0.0.1"));
}

#[test]
fn traefik_labels_route_to_agent() {
    let labels = vec![
        ("traefik.http.routers.a.entrypoints".to_string(), "websecure".to_string()),
        ("traefik.http.routers.a.rule".to_string(), "Host(`t.example.com`)".to_string()),
        ("traefik.http.services.a.loadbalancer.server.port".to_string(), "8080".to_string()),
    ];
    let d = traefik_candidate("proxy", &labels, 8080, None).unwrap();
    assert_eq!(d.hostname, "t.example.com");
    assert_eq!(d.scheme, "https");
    assert_eq!(d.external_port, 443);
    assert_eq!(d.config_path, "docker://proxy");
    assert!(traefik_candidate("proxy", &labels, 9000, None).is_none());
}

fn empty_sources() -> IngressSources {
    IngressSources { caddy: Ok(vec![]), nginx: Ok(vec![]), traefik: Ok(vec![]), npm: Ok(vec![]) }
}

#[test]
fn detection_order_and_failures() {
    let mut sources = empty_sources();
    sources.caddy = Err("failed to read /etc/caddy/Caddyfile".to_string());
    sources.nginx = Ok(vec![(
        "/etc/nginx/conf.d/a.conf".to_string(),
        "server {\n server_name n.example.com;\n proxy_pass http://127.0.0.1:8080;\n}\n".to_string(),
    )]);
    let found = detect_public_ingress(8080, None, None, &sources).unwrap().unwrap();
    assert_eq!(found.provider, "nginx");
    let failed = detect_public_ingress(8080, Some(" Caddy "), None, &sources).unwrap_err();
    assert_eq!(failed, IngressError::Read("failed to read /etc/caddy/Caddyfile".to_string()));
    assert!(detect_public_ingress(8080, Some("npm"), None, &sources).unwrap().is_none());
}

#[test]
fn configure_plans() {
    assert_eq!(
        configure_public_ingress(8080, None, "nohost", Ok(false), true).unwrap_err(),
        IngressError::HostnameRequired
    );
    assert_eq!(
        configure_public_ingress(8080, Some("nginx"), "Node.Example.com", Ok(true), false).unwrap(),
        Some(IngressPlan::Nginx { hostname: "node.example.com".to_string() })
    );
    assert_eq!(
        configure_public_ingress(8080, None, "node.example.com", Ok(true), true).unwrap(),
        Some(IngressPlan::Npm { hostname: "node.example.com".to_string() })
    );
    assert_eq!(
        configure_public_ingress(8080, Some("caddy"), "node.example.com", Ok(true), true).unwrap(),
        None
    );
    assert!(matches!(
        configure_public_ingress(8080, Some("apache"), "node.example.com", Ok(true), true),
        Err(IngressError::UnsupportedProvider(p)) if p == "apache"
    ));
    match nginx_site_plan(8080, "node.example.com", None, false, true).unwrap() {
        NginxSitePlan::Write { config_path, symlink_path, content } => {
            assert_eq!(config_path, "/etc/nginx/conf.d/d1v-runtime-node-example-com.conf");
            assert!(symlink_path.is_none());
            assert!(content.contains("server_name node.example.com;"));
        }
        NginxSitePlan::Existing(_) => panic!("expected a new site"),
    }
    assert_eq!(
        nginx_site_plan(8080, "n", None, false, false).unwrap_err(),
        IngressError::NoNginxDirectories
    );
}

#[test]
fn npm_mount_paths_follow_data_bind_mount() {
    let mounts = vec![DockerMount { source: "/srv/npm-data".to_string(), destination: "/data".to_string() }];
    let parsed = npm_proxy_host_paths(&mounts);
    assert_eq!(
        parsed,
        vec![std::path::PathBuf::from("/srv/npm-data").join("nginx/proxy_host").to_string_lossy().to_string()]
    );
}

#[test]
fn npm_mount_paths_other_mounts() {
    let m = |s: &str, d: &str| DockerMount { source: s.to_string(), destination: d.to_string() };
    let mounts = vec![
        m("", "/data"),
        m("/a/", "/data"),
        m("/hosts", "/data/nginx/proxy_host"),
        m("/x", "/etc/letsencrypt"),
    ];
    assert_eq!(npm_proxy_host_paths(&mounts), vec!["/a/nginx/proxy_host", "/hosts"]);
}

#[test]
fn npm_script_sets_host_and_port() {
    let s = build_npm_upsert_script("node.example.com", 8080);
    assert!(s.starts_with("\nimport proxyHostModel from \"./models/proxy_host.js\";\n"));
    assert!(s.contains(
        "const HOSTNAME = \"node.example.com\";\nconst TARGET = {\n  forward_host: \"127.0.0.1\",\n  forward_port: 8080,\n  forward_scheme: \"http\",\n};"
    ));
    assert!(s.contains("config_path: `/data/nginx/proxy_host/${row.id}.conf`,"));
    assert!(s.ends_with("}));\n"));
    let q = build_npm_upsert_script("a\"b", 1);
    assert!(q.contains("const HOSTNAME = \"a\\\"b\";"));
}

#[test]
fn npm_configured_defaults_path() {
    let c = npm_configured("n.example.com", None);
    assert_eq!(c.provider, "npm");
    assert_eq!(c.config_path, "docker://nginx-proxy-manager");
    let c = npm_configured("n.example.com", Some("/data/nginx/proxy_host/3.conf".to_string()));
    assert_eq!(c.config_path, "/data/nginx/proxy_host/3.conf");
    assert_eq!(c.hostname, "n.example.com");
}

#[test]
fn pull_plans() {
    assert_eq!(pull_plan("img:1", true, true), PullPlan::UseLocal { note: None });
    assert_eq!(
        pull_plan("img:1", true, false),
        PullPlan::Fail("Image 'img:1' not found locally. Remove --skip-pull to pull it.".to_string())
    );
    assert_eq!(
        pull_plan("img:1", false, true),
        PullPlan::UseLocal { note: Some("⏭️  Local image already present, skipping pull: img:1".to_string()) }
    );
    assert_eq!(pull_plan("img:1", false, false), PullPlan::Pull);
    assert_eq!(
        after_failed_pull("img:1", "timeout", true),
        Ok("⚠️  Pull failed (timeout), falling back to cached image".to_string())
    );
    assert_eq!(
        after_failed_pull("img:1", "timeout", false),
        Err("Failed to pull image 'img:1' and no local cache found: timeout".to_string())
    );
    assert_eq!(docker_failure("inspect image", None), "Failed to inspect image");
    assert_eq!(docker_failure("inspect image", Some("no such file")), "Failed to inspect image: no such file");
    assert_eq!(docker_problem_message(DockerProblem::NotRunning), "Docker is not running. Please start Docker daemon.");
}

#[test]
fn docker_listings_parse() {
    let rows = parse_image_rows("ghcr.io/a/b:latest|sha256:1\n | sha256:2\nbad line\nghcr.io/a/b:old | sha256:3 \n");
    assert_eq!(
        rows,
        vec![
            ("ghcr.io/a/b:latest".to_string(), "sha256:1".to_string()),
            ("ghcr.io/a/b:old".to_string(), "sha256:3".to_string()),
        ]
    );
    assert_eq!(parse_used_image_ids(" sha256:1 \n\n sha256:9\n"), vec!["sha256:1", "sha256:9"]);
}

#[test]
fn ingress_origin_hides_default_port() {
    let c = |scheme: &str, port: u16| DetectedIngress {
        provider: "caddy",
        hostname: "n.example.com".to_string(),
        scheme: scheme.to_string(),
        external_port: port,
        upstream_host: "127.0.0.1".to_string(),
        upstream_port: 8080,
        config_path: "/etc/caddy/Caddyfile".to_string(),
        confidence: 90,
    };
    assert_eq!(origin(&c("https", 443)), "https://n.example.com");
    assert_eq!(origin(&c("http", 80)), "http://n.example.com");
    assert_eq!(origin(&c("https", 8443)), "https://n.example.com:8443");
    assert_eq!(origin(&c("http", 443)), "http://n.example.com:443");
}

#[test]
fn public_ingress_hostname_is_checked_before_any_probe() {
    assert_eq!(public_ingress_hostname("  Node.Example.com. ").unwrap(), "node.example.com");
    assert_eq!(public_ingress_hostname("nohost").unwrap_err(), IngressError::HostnameRequired);
    assert_eq!(public_ingress_hostname("   ").unwrap_err(), IngressError::HostnameRequired);
    assert!(ingress_provider_requested(Some(" NGINX ")));
    assert!(!ingress_provider_requested(Some("   ")));
    assert!(!ingress_provider_requested(None));
}

#[test]
fn container_labels_read_the_inspect_json() {
    let raw = " {\"traefik.http.routers.a.rule\":\"Host(`a.example.com`)\",\"n\":null,\"count\":3} \n";
    assert_eq!(
        container_labels(raw).unwrap(),
        vec![
            ("count".to_string(), String::new()),
            ("n".to_string(), String::new()),
            ("traefik.http.routers.a.rule".to_string(), "Host(`a.example.com`)".to_string()),
        ]
    );
    assert!(container_labels("null\n").is_none());
    assert!(container_labels("").is_none());
    assert!(container_labels("[1]").is_none());
    assert!(container_labels("{broken").is_none());
}

#[test]
fn npm_mount_paths_read_the_mounts_json() {
    let raw = r#"[{"Type":"bind","Source":"/srv/npm","Destination":"/data"},
        {"Source":"/x/hosts/","Destination":"/data/nginx/proxy_host"},
        {"Destination":"/data"},
        {"Source":"/srv/other","Destination":"/etc"},
        5]"#;
    assert_eq!(npm_mount_paths(raw), vec!["/srv/npm/nginx/proxy_host".to_string(), "/x/hosts/".to_string()]);
    assert!(npm_mount_paths("{}").is_empty());
    assert!(npm_mount_paths("not json").is_empty());
}

#[test]
fn npm_configured_path_reads_the_script_output() {
    assert_eq!(
        npm_configured_path("{\"config_path\":\"/data/nginx/proxy_host/3.conf\",\"id\":3}\n").unwrap(),
        Some("/data/nginx/proxy_host/3.conf".to_string())
    );
    assert_eq!(npm_configured_path("{\"config_path\":7}").unwrap(), None);
    assert_eq!(npm_configured_path("[]").unwrap(), None);
    let err = npm_configured_path("  oops ").unwrap_err();
    assert!(err.starts_with("failed to parse nginx proxy manager output: "));
    assert!(err.ends_with("; raw=oops"));
    assert_eq!(ingress_provider(Some(" NPM ")), Some("npm".to_string()));
    assert_eq!(ingress_provider(Some("  ")), None);
}
