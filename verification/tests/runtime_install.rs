use d1v_cli::runtime_install::{
    already_installed_message, available_message, doctor_lines, github_release, installed_message,
    installing_message, latest_release_api_url, manifest_release, uses_manifest, ManifestAsset,
    RuntimeInstallResult, RuntimeManifest,
};
use d1v_cli::runtime_install::{
    archive_file_name, available_runtime_update, current_target, default_runtime_binary_path,
    install_step, is_loopback_url, is_upgrade_available, normalize_tag, normalize_version,
    parse_checksum, requires_install, resolve_url, sha256_hex, verify_checksum,
    version_from_output, versions_match, InstallStep, RuntimeError,
};

#[test]
fn parses_checksum_lines() {
    let body = "abc123  opcode-api-aarch64-apple-darwin.tar.gz\nfff999  other.tar.gz\n";
    assert_eq!(
        parse_checksum(body, "opcode-api-aarch64-apple-darwin.tar.gz").as_deref(),
        Some("abc123")
    );
    assert_eq!(parse_checksum(body, "missing.tar.gz"), None);
}

#[test]
fn parses_binary_mode_checksum_lines() {
    assert_eq!(parse_checksum("ffee *a.tar.gz\n", "a.tar.gz").as_deref(), Some("ffee"));
}

#[test]
fn normalizes_tags() {
    assert_eq!(normalize_tag("0.1.3"), "v0.1.3");
    assert_eq!(normalize_tag("v0.1.3"), "v0.1.3");
}

#[test]
fn compares_versions() {
    assert!(is_upgrade_available("0.1.0", "v0.2.0"));
    assert!(!is_upgrade_available("v0.2.0", "0.2.0"));
}

#[test]
fn version_rules() {
    assert_eq!(normalize_version("vV1.2"), "1.2");
    assert!(versions_match("v1.0.0", "1.0.0"));
    assert!(is_upgrade_available("nightly", "other"));
    assert!(!is_upgrade_available("0.3.0", "0.2.0"));
    assert!(requires_install("0.3.0", "0.2.0", true));
    assert!(!requires_install("0.3.0", "0.2.0", false));
    assert_eq!(install_step(None, "v1", false, true), InstallStep::Available);
    assert_eq!(install_step(Some("1.0.0"), "v1.0.0", false, false), InstallStep::UpToDate);
    assert_eq!(install_step(Some("1.0.0"), "v1.1.0", false, false), InstallStep::Install);
    assert_eq!(available_runtime_update(None, "v2").as_deref(), Some("v2"));
    assert_eq!(available_runtime_update(Some("v2.0.0"), "2.0.0"), None);
}

#[test]
fn resolves_relative_urls_against_manifest() {
    let url = resolve_url(
        "https://runtime.example.com/opcode-api/release.json",
        "v0.1.0/opcode-api-aarch64-apple-darwin.tar.gz",
    )
    .unwrap();
    assert_eq!(
        url,
        "https://runtime.example.com/opcode-api/v0.1.0/opcode-api-aarch64-apple-darwin.tar.gz"
    );
}

#[test]
fn derives_archive_name_from_url() {
    assert_eq!(
        archive_file_name(
            "https://runtime.example.com/opcode-api/v0.1.0/opcode-api-aarch64-apple-darwin.tar.gz"
        ),
        "opcode-api-aarch64-apple-darwin.tar.gz"
    );
    assert_eq!(archive_file_name("not a url"), "opcode-api.tar.gz");
}

#[test]
fn detects_loopback_urls() {
    assert!(is_loopback_url("http://127.0.0.1:18765/release.json"));
    assert!(is_loopback_url("http://localhost:18765/release.json"));
    assert!(!is_loopback_url("https://runtime.example.com/opcode-api/release.json"));
}

#[test]
fn targets_and_paths() {
    assert_eq!(current_target("arm64", "macos").unwrap(), "aarch64-apple-darwin");
    assert_eq!(current_target("x86_64", "linux").unwrap(), "x86_64-unknown-linux-musl");
    assert_eq!(
        current_target("riscv64", "linux").unwrap_err(),
        RuntimeError::UnsupportedArchitecture("riscv64".to_string())
    );
    assert_eq!(
        current_target("x86_64", "windows").unwrap_err(),
        RuntimeError::UnsupportedOs("windows".to_string())
    );
    assert_eq!(default_runtime_binary_path("/home/u/.d1v"), "/home/u/.d1v/bin/opcode-api");
    assert_eq!(version_from_output("opcode-api 0.4.1\n").as_deref(), Some("0.4.1"));
    assert_eq!(version_from_output("opcode-api"), None);
}

#[test]
fn checksums_of_content() {
    assert_eq!(
        sha256_hex(b"abc"),
        "ba7816bf8f01cfea414140de5dae2223b00361a396177a9cb410ff61f20015ad"
    );
    assert!(verify_checksum("ABCD", "abcd", "a", "b").is_ok());
    assert_eq!(
        verify_checksum("abcd", "abce", "a.tar.gz", "manifest").unwrap_err(),
        RuntimeError::ChecksumMismatch {
            archive_name: "a.tar.gz".to_string(),
            source_label: "manifest".to_string()
        }
    );
}

fn asset(target: &str, url: &str, name: Option<&str>) -> ManifestAsset {
    ManifestAsset {
        target: target.to_string(),
        url: url.to_string(),
        sha256: format!("sha-{target}"),
        archive_name: name.map(|s| s.to_string()),
    }
}

#[test]
fn manifest_release_picks_target_asset() {
    let manifest = RuntimeManifest {
        version: "1.2.3".to_string(),
        assets: vec![
            asset("aarch64-apple-darwin", "https://cdn.example.com/a.tar.gz", None),
            asset("x86_64-unknown-linux-musl", "files/opcode-api-linux.tar.gz", Some("  ")),
        ],
    };
    let base = "https://example.com/runtime/index.json";
    let r = manifest_release(base, &manifest, "x86_64-unknown-linux-musl", "/bin/opcode-api", None).unwrap();
    assert_eq!(r.archive_url, "https://example.com/runtime/files/opcode-api-linux.tar.gz");
    assert_eq!(r.archive_name, "opcode-api-linux.tar.gz");
    assert_eq!(r.target_version, "v1.2.3");
    assert_eq!(r.source_label, base);
    assert_eq!(r.checksum_sha256.as_deref(), Some("sha-x86_64-unknown-linux-musl"));
    assert!(r.checksum_url.is_none());
    let a = manifest_release(base, &manifest, "aarch64-apple-darwin", "/bin/opcode-api", Some("v1.0.0".to_string()))
        .unwrap();
    assert_eq!(a.archive_url, "https://cdn.example.com/a.tar.gz");
    assert_eq!(a.archive_name, "a.tar.gz");
    assert_eq!(a.current_version.as_deref(), Some("v1.0.0"));
    let missing = manifest_release(base, &manifest, "riscv", "/bin/opcode-api", None).unwrap_err();
    assert_eq!(missing, RuntimeError::MissingAsset("riscv".to_string()));
    assert_eq!(missing.message(), "missing runtime asset for target riscv");
}

#[test]
fn github_release_urls() {
    let r = github_release("d1vai/opcode-api-runtime", "v0.4.0", "x86_64-unknown-linux-musl", "/x/opcode-api", None);
    assert_eq!(r.archive_name, "opcode-api-x86_64-unknown-linux-musl.tar.gz");
    assert_eq!(
        r.archive_url,
        "https://github.com/d1vai/opcode-api-runtime/releases/download/v0.4.0/opcode-api-x86_64-unknown-linux-musl.tar.gz"
    );
    assert_eq!(
        r.checksum_url.as_deref(),
        Some("https://github.com/d1vai/opcode-api-runtime/releases/download/v0.4.0/checksums.txt")
    );
    assert_eq!(
        latest_release_api_url("d1vai/opcode-api-runtime"),
        "https://api.github.com/repos/d1vai/opcode-api-runtime/releases/latest"
    );
    assert!(uses_manifest(&None, &Some("https://m".to_string())));
    assert!(!uses_manifest(&Some("v1".to_string()), &Some("https://m".to_string())));
    assert!(!uses_manifest(&None, &None));
}

#[test]
fn runtime_error_messages() {
    assert_eq!(RuntimeError::UnsupportedOs("plan9".into()).message(), "unsupported OS: plan9");
    assert_eq!(
        RuntimeError::UnsupportedArchitecture("mips".into()).message(),
        "unsupported architecture: mips"
    );
    assert_eq!(RuntimeError::MissingChecksum("a.tgz".into()).message(), "missing checksum for a.tgz");
    assert_eq!(
        RuntimeError::ChecksumMismatch { archive_name: "a.tgz".into(), source_label: "repo".into() }.message(),
        "checksum verification failed for a.tgz from repo"
    );
}

#[test]
fn install_results_as_json() {
    let up = RuntimeInstallResult::UpToDate { version: "v1".into(), executable_path: "/b".into() };
    assert_eq!(up.to_json(), "{\n  \"state\": \"up_to_date\",\n  \"version\": \"v1\",\n  \"executable_path\": \"/b\"\n}");
    let avail = RuntimeInstallResult::InstallAvailable {
        current_version: None,
        target_version: "v2".into(),
        executable_path: "/b".into(),
    };
    let v: serde_json::Value = serde_json::from_str(&avail.to_json()).unwrap();
    assert_eq!(v["state"], "install_available");
    assert!(v["current_version"].is_null());
    let doc = RuntimeInstallResult::Doctor {
        executable_path: "/b".into(),
        exists: true,
        healthy: false,
        configured_home: Some("/h".into()),
        configured_device_id: Some("dev".into()),
        current_version: Some("v1".into()),
        latest_version: None,
    };
    let v: serde_json::Value = serde_json::from_str(&doc.to_json()).unwrap();
    assert_eq!(v["state"], "doctor");
    assert_eq!(v["exists"], true);
    assert_eq!(v["healthy"], false);
    assert_eq!(v["configured_home"], "/h");
    assert_eq!(
        doctor_lines(&doc),
        vec!["opcode-api binary: /b", "installed: yes", "healthy: no", "version: v1", "agent home: /h", "device id: dev"]
    );
    assert!(doctor_lines(&up).is_empty());
}

#[test]
fn install_messages() {
    assert_eq!(already_installed_message("/b"), "opcode-api runtime already installed at /b");
    assert_eq!(available_message("v2"), "opcode-api runtime v2 is available for install");
    assert_eq!(installing_message("v2"), "installing opcode-api runtime v2");
    assert_eq!(installed_message("v2", "/b"), "installed opcode-api runtime v2 to /b");
}
