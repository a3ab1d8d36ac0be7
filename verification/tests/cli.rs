use d1v_cli::agent::{AgentCommand, InitHomeArgs, PairArgs};
use d1v_cli::cli::{
    auth_gate, checks_for_update, expiring_soon, locale_candidates, login_method, needs_auth,
    requires_auth, AuthGate, CommandKind, LoginMethod,
};

#[test]
fn auth_requirement_by_command() {
    assert!(!requires_auth(&CommandKind::Auth));
    assert!(!requires_auth(&CommandKind::Config));
    assert!(!requires_auth(&CommandKind::Node));
    assert!(!requires_auth(&CommandKind::Expose));
    assert!(!requires_auth(&CommandKind::Init));
    assert!(!requires_auth(&CommandKind::Banner));
    assert!(requires_auth(&CommandKind::Project));
    assert!(requires_auth(&CommandKind::Deploy));
    assert!(requires_auth(&CommandKind::Push));
    assert!(requires_auth(&CommandKind::User { requires_auth: true }));
    assert!(!requires_auth(&CommandKind::User { requires_auth: false }));
    assert!(!requires_auth(&CommandKind::Agent { command: AgentCommand::Status }));
    assert!(!requires_auth(&CommandKind::Agent {
        command: AgentCommand::InitHome(InitHomeArgs { path: ".".to_string(), name: None, device_id: None })
    }));
    assert!(requires_auth(&CommandKind::Agent {
        command: AgentCommand::Pair(PairArgs { code: None, name: None })
    }));
}

#[test]
fn quick_deploy_flags_need_auth() {
    assert!(needs_auth(true, false, &None));
    assert!(needs_auth(false, true, &Some(CommandKind::Banner)));
    assert!(!needs_auth(false, false, &None));
    assert!(!needs_auth(false, false, &Some(CommandKind::Debug)));
    assert!(needs_auth(false, false, &Some(CommandKind::Env)));
}

#[test]
fn auth_gate_outcomes() {
    assert_eq!(auth_gate(false, false, true, false), AuthGate::Skip);
    assert_eq!(auth_gate(true, false, false, true), AuthGate::NotLoggedIn);
    assert_eq!(auth_gate(true, true, true, true), AuthGate::Relogin);
    assert_eq!(auth_gate(true, true, true, false), AuthGate::TokenExpired);
    assert_eq!(auth_gate(true, true, false, false), AuthGate::Proceed);
}

#[test]
fn expiry_warning_within_a_day() {
    assert!(expiring_soon(Some(3600)));
    assert!(expiring_soon(Some(86399)));
    assert!(!expiring_soon(Some(86400)));
    assert!(!expiring_soon(None));
}

#[test]
fn login_method_precedence() {
    assert_eq!(login_method(true, true, true, true), LoginMethod::ApiKey);
    assert_eq!(login_method(true, true, false, true), LoginMethod::Token);
    assert_eq!(login_method(true, false, false, true), LoginMethod::Password);
    assert_eq!(login_method(false, false, false, true), LoginMethod::Interactive);
    assert_eq!(login_method(false, false, false, false), LoginMethod::Code);
}

#[test]
fn locale_candidates_in_order() {
    let s = |x: &str| Some(x.to_string());
    assert_eq!(locale_candidates(s("zh"), s("en"), s("ja"), s("fr-FR")), vec!["zh", "en", "ja", "fr-FR"]);
    assert_eq!(locale_candidates(None, s(""), None, s("en-US")), vec!["en-US"]);
    assert!(locale_candidates(None, None, None, None).is_empty());
}

#[test]
fn update_check_skipped_for_upgrade() {
    assert!(checks_for_update(true, &None));
    assert!(checks_for_update(true, &Some(CommandKind::Project)));
    assert!(!checks_for_update(true, &Some(CommandKind::Upgrade)));
    assert!(!checks_for_update(true, &Some(CommandKind::Uninstall)));
    assert!(!checks_for_update(false, &None));
}
