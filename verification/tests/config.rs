use d1v_cli::config::cmd::{
    ConfigInfo, ConfigKey, ConfigKeysView, ConfigPath, ConfigPathView, ConfigValue,
    ConfigValueView,
};
use d1v_cli::config::{Config, ConfigError, RecordConfig};
use d1v_cli::text::RenderExt;

#[test]
fn key_display() {
    assert_eq!(ConfigKey::BaseUrl.to_string(), "base_url");
    assert_eq!(ConfigKey::Language.to_string(), "language");
}

#[test]
fn get_base_url() {
    let config = Config::new();
    assert_eq!(config.get(ConfigKey::BaseUrl).as_deref(), Some("https://api.d1v.ai"));
}

#[test]
fn get_language_none() {
    let config = Config::new();
    assert_eq!(config.get(ConfigKey::Language), None);
}

#[test]
fn set_base_url() {
    let mut config = Config::new();
    config.set(ConfigKey::BaseUrl, "https://example.com").unwrap();
    assert_eq!(config.get(ConfigKey::BaseUrl).as_deref(), Some("https://example.com"));
}

#[test]
fn set_base_url_empty() {
    let mut config = Config::new();
    config.set(ConfigKey::BaseUrl, "https://example.com").unwrap();
    config.set(ConfigKey::BaseUrl, "").unwrap();
    assert_eq!(config.get(ConfigKey::BaseUrl).as_deref(), Some("https://api.d1v.ai"));
}

#[test]
fn set_language() {
    let mut config = Config::new();
    config.set(ConfigKey::Language, "zh-Hans").unwrap();
    assert_eq!(config.get(ConfigKey::Language).as_deref(), Some("zh-Hans"));
}

#[test]
fn set_language_empty() {
    let mut config = Config::new();
    config.set(ConfigKey::Language, "zh-Hans").unwrap();
    config.set(ConfigKey::Language, "").unwrap();
    assert_eq!(config.get(ConfigKey::Language), None);
}

#[test]
fn set_record_enabled_rejects_other_text() {
    let mut config = Config::new();
    let err = config.set(ConfigKey::RecordEnabled, "yes").unwrap_err();
    assert_eq!(
        err,
        ConfigError::InvalidValue { key: "record.enabled".into(), value: "yes".into() }
    );
    assert_eq!(err.message(), "invalid value for record.enabled: yes");
    config.set(ConfigKey::RecordEnabled, "true").unwrap();
    assert_eq!(config.get(ConfigKey::RecordEnabled).as_deref(), Some("true"));
}

#[test]
fn cmd_info_text() {
    let mut config = Config::new();
    config.set(ConfigKey::Language, "en").unwrap();
    let info = ConfigInfo::from_config(&config);
    assert_eq!(info.base_url, "https://api.d1v.ai");
    let text = info.fields().display().to_string().unwrap();
    assert!(text.contains("base_url"));
    assert!(text.contains("language"));
    assert!(text.contains("https://api.d1v.ai"));
}

#[test]
fn value_text() {
    let with = ConfigValue {
        key: "base_url".into(),
        value: Some("https://api.d1v.ai".into()),
    };
    assert_eq!(
        ConfigValueView { value: with }.display().to_string().unwrap(),
        "https://api.d1v.ai\n"
    );

    let without = ConfigValue {
        key: "language".into(),
        value: None,
    };
    assert_eq!(
        ConfigValueView { value: without }.display().to_string().unwrap(),
        "\n"
    );
}

#[test]
fn path_text() {
    let p = ConfigPath {
        path: "/home/user/.d1v/config.toml".into(),
    };
    assert_eq!(
        ConfigPathView { path: p }.display().to_string().unwrap(),
        "/home/user/.d1v/config.toml\n"
    );
}

#[test]
fn keys_text() {
    let keys: Vec<String> = ConfigKey::value_variants()
        .iter()
        .map(|k| k.to_string())
        .collect();

    let expected = ["base_url", "language", "record.enabled", "record.dir"].join("\n") + "\n";

    assert_eq!(
        ConfigKeysView { keys }.display().to_string().unwrap(),
        expected
    );
}

#[test]
fn empty_falls_back_to_default() {
    let mut config = Config::new();
    config.base_url = Config::normalize_loaded_base_url(Some(String::new()));
    assert_eq!(config.base_url(), "https://api.d1v.ai");
    assert_eq!(config.base_url_override(), None);
}

#[test]
fn whitespace_falls_back_to_default() {
    let mut config = Config::new();
    config.base_url = Config::normalize_loaded_base_url(Some("   ".into()));
    assert_eq!(config.base_url(), "https://api.d1v.ai");
    assert_eq!(config.base_url_override(), None);
}

#[test]
fn missing_uses_default() {
    let mut config = Config::new();
    config.base_url = Config::normalize_loaded_base_url(None);
    assert_eq!(config.base_url(), "https://api.d1v.ai");
    assert_eq!(config.base_url_override(), None);
}

#[test]
fn trims_whitespace() {
    let mut config = Config::new();
    config.base_url = Config::normalize_loaded_base_url(Some("  https://api.example.com  ".into()));
    assert_eq!(config.base_url(), "https://api.example.com");
    assert_eq!(config.base_url_override(), Some("https://api.example.com"));
}

#[test]
fn builder_and_paths() {
    let c = Config::builder().base_url(" https://b ").language("en".into()).build();
    assert_eq!(c.base_url(), "https://b");
    assert_eq!(c.language.as_deref(), Some("en"));
    assert_eq!(Config::path(Some("/home/u")).unwrap(), "/home/u/.d1v/config.toml");
    assert_eq!(Config::dir(None).unwrap_err(), ConfigError::NoHomeDir);
    let r = RecordConfig { enabled: true, dir: None };
    assert_eq!(
        r.resolve_path(Some("/home/u/.d1v"), "2024-05-01").as_deref(),
        Some("/home/u/.d1v/recordings/2024-05-01.json")
    );
    assert!(RecordConfig { enabled: false, dir: None }.resolve_path(Some("/x"), "d").is_none());
    assert_eq!(ConfigKey::from_name("record.dir"), Some(ConfigKey::RecordDir));
}

#[test]
fn cmd_info_json() {
    let mut config = Config::new();
    config.set(ConfigKey::BaseUrl, "https://api.d1v.ai").unwrap();
    config.set(ConfigKey::Language, "en").unwrap();

    let info = ConfigInfo::from_config(&config);
    let json: serde_json::Value = serde_json::from_str(&info.to_json()).unwrap();

    assert_eq!(json["base_url"], "https://api.d1v.ai");
    assert_eq!(json["language"], "en");
}

#[test]
fn cmd_info_json_leaves_out_unset() {
    let info = ConfigInfo::from_config(&Config::new());
    assert_eq!(
        info.to_json(),
        "{\n  \"base_url\": \"https://api.d1v.ai\",\n  \"record_enabled\": false\n}"
    );
}
