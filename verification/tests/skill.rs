use d1v_cli::skill::{
    backup_file_name, is_executable, join_path, resolve_destinations_with_roots, summary_line,
    temporary_file_name, validate_skill, Agent, AgentTarget, InstallResult, WriteOutcome,
};

#[test]
fn accepts_d1v_skill_frontmatter() {
    validate_skill("---\nname: d1v\ndescription: Use d1v CLI.\n---\n# d1v\n").unwrap();
}

#[test]
fn rejects_untrusted_markdown_shape() {
    assert!(validate_skill("# Not a skill").is_err());
}

#[test]
fn skill_needs_name_and_description() {
    assert!(validate_skill("  \n---\nname: d1v\ndescription: x\n").is_ok());
    assert!(validate_skill("---\nname: other\ndescription: x\n").is_err());
    assert!(validate_skill("---\nname: d1v\n").is_err());
}

#[test]
fn auto_uses_only_detected_agents() {
    let d = resolve_destinations_with_roots(AgentTarget::Auto, true, false, "/h/.codex", "/h/.c");
    assert_eq!(d.len(), 1);
    assert_eq!(d[0].agent, Agent::Codex);
    assert_eq!(d[0].path, "/h/.codex/skills/d1v/SKILL.md");
}

#[test]
fn auto_with_no_agents_has_no_destinations() {
    let d = resolve_destinations_with_roots(AgentTarget::Auto, false, false, "/a", "/b");
    assert!(d.is_empty());
}

#[test]
fn explicit_all_does_not_require_detected_agents() {
    let d = resolve_destinations_with_roots(AgentTarget::All, false, false, "/a/", "/b");
    assert_eq!(d.len(), 2);
    assert_eq!(d[0].path, "/a/skills/d1v/SKILL.md");
    assert_eq!(d[1].agent, Agent::Claude);
    assert_eq!(d[1].path, "/b/skills/d1v/SKILL.md");
}

#[test]
fn outcomes_and_names() {
    assert_eq!(WriteOutcome::Installed.status(), "installed");
    assert_eq!(WriteOutcome::Unchanged.backup_path(), None);
    assert_eq!(
        WriteOutcome::Updated("/x/bak".into()).backup_path().as_deref(),
        Some("/x/bak")
    );
    assert_eq!(backup_file_name("20240101T000000Z", 0), "SKILL.md.d1v-backup-20240101T000000Z");
    assert_eq!(backup_file_name("T", 3), "SKILL.md.d1v-backup-T-3");
    assert_eq!(temporary_file_name(42, 1), ".SKILL.md.d1v-tmp-42-1");
    assert!(is_executable(0o755));
    assert!(!is_executable(0o644));
    assert_eq!(join_path("", "x"), "x");
}

#[test]
fn summary_lines() {
    let updated = InstallResult {
        agent: "Codex",
        status: "updated",
        path: Some("/p".into()),
        backup_path: Some("/b".into()),
        message: None,
    };
    assert_eq!(
        summary_line(&updated).as_deref(),
        Some("updated d1v skill for Codex: /p (previous version backed up to /b)")
    );
    let skipped = InstallResult {
        agent: "coding agents",
        status: "skipped",
        path: None,
        backup_path: None,
        message: Some("nothing found"),
    };
    assert_eq!(summary_line(&skipped).as_deref(), Some("d1v skill skipped: nothing found"));
    let installed = InstallResult { backup_path: None, status: "installed", ..updated };
    assert_eq!(summary_line(&installed).as_deref(), Some("installed d1v skill for Codex: /p"));
}
