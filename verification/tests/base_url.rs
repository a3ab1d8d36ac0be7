use d1v_cli::base_url::{
    from_cli, from_config, from_env, BaseUrl, BaseUrlCandidate, BaseUrlSource,
    DEFAULT_BASE_URL,
};

#[test]
fn cli_wins() {
    let resolved = BaseUrl::resolve(vec![
        from_cli(Some("https://cli.example.com".into())),
        from_config(Some("https://cfg.example.com".into())),
    ]);
    assert_eq!(resolved.as_str(), "https://cli.example.com");
    assert_eq!(resolved.source(), BaseUrlSource::Cli);
}

#[test]
fn env_used_when_no_cli() {
    let resolved = BaseUrl::resolve(vec![from_env(Some("https://env.example.com".into()))]);
    assert_eq!(resolved.as_str(), "https://env.example.com");
    assert_eq!(resolved.source(), BaseUrlSource::Env);
}

#[test]
fn empty_env_falls_through() {
    let resolved = BaseUrl::resolve(vec![
        from_env(Some(String::new())),
        from_config(Some("https://cfg.example.com".into())),
    ]);
    assert_eq!(resolved.as_str(), "https://cfg.example.com");
    assert_eq!(resolved.source(), BaseUrlSource::Config);
}

#[test]
fn whitespace_normalized() {
    let resolved = BaseUrl::resolve(vec![from_cli(Some("  https://x  ".into()))]);
    assert_eq!(resolved.as_str(), "https://x");
    assert_eq!(resolved.source(), BaseUrlSource::Cli);
}

#[test]
fn default_when_empty() {
    let resolved = BaseUrl::resolve(vec![]);
    assert_eq!(resolved.as_str(), DEFAULT_BASE_URL);
    assert_eq!(resolved.source(), BaseUrlSource::Default);
}

#[test]
fn display_writes_url() {
    let resolved = BaseUrl::resolve(vec![from_cli(Some("https://x.example".into()))]);
    assert_eq!(resolved.to_string(), "https://x.example");
}

#[test]
fn source_serializes_snake_case() {
    assert_eq!(BaseUrlSource::Cli.json_name(), "cli");
    assert_eq!(BaseUrlSource::Default.json_name(), "default");
}

#[test]
fn priority_order() {
    assert!(BaseUrlSource::Cli < BaseUrlSource::Env);
    assert!(BaseUrlSource::Env < BaseUrlSource::Config);
    assert!(BaseUrlSource::Config < BaseUrlSource::Default);
}

#[test]
fn order_of_candidates_does_not_matter() {
    let resolved = BaseUrl::resolve(vec![
        from_config(Some("https://cfg".into())),
        d1v_cli::base_url::default(),
        from_env(Some("https://env".into())),
    ]);
    assert_eq!(resolved.as_str(), "https://env");
    assert_eq!(resolved.source(), BaseUrlSource::Env);
}

#[test]
fn blank_candidate_has_no_value() {
    let c = BaseUrlCandidate::new(BaseUrlSource::Cli, Some("   ".into()));
    assert_eq!(c.value, None);
    assert_eq!(BaseUrlSource::Env.label(), "D1V_BASE_URL");
    assert_eq!(BaseUrlSource::Cli.rank(), 0);
}

#[test]
fn candidate_order_does_not_matter() {
    let layers = || {
        vec![
            from_config(Some("https://cfg.example.com".into())),
            from_cli(None),
            from_env(Some("https://env.example.com".into())),
        ]
    };
    let forward = BaseUrl::resolve(layers());
    let mut reversed = layers();
    reversed.reverse();
    let backward = BaseUrl::resolve(reversed);
    assert_eq!(forward, backward);
    assert_eq!(forward.as_str(), "https://env.example.com");
    assert_eq!(forward.source(), BaseUrlSource::Env);
}
