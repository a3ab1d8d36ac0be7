use d1v_cli::auth::{
    after_rejection, browser_prompt, credential_check, device_id_file_text, is_auth_failure,
    new_device_id, piped_secret, stored_device_id, AfterRejection, AuthStatus, AuthStatusView,
    BrowserLogin, BrowserPoll, CredentialCheck, RequestFailure, BROWSER_LOGIN_POLLS,
};
use d1v_cli::text::RenderExt;

fn render(status: &AuthStatus) -> String {
    AuthStatusView::new(status.clone()).display().to_string().unwrap()
}

#[test]
fn status_text_logged_in() {
    let status = AuthStatus::LoggedIn {
        source: "config".into(),
        subject: Some("user@example.com".into()),
        expires_in: Some(9000),
    };

    assert_eq!(
        render(&status),
        "✓ Logged in (config)\n  user        user@example.com\n  expires in  2h 30m\n"
    );
}

#[test]
fn status_text_expired() {
    let status = AuthStatus::Expired {
        source: "config".into(),
        subject: Some("admin".into()),
    };

    assert_eq!(
        render(&status),
        "✗ Token expired (config)\n  user  admin\n"
    );
}

#[test]
fn status_text_not_logged_in() {
    let status = AuthStatus::NotLoggedIn;

    assert_eq!(render(&status), "✗ Not logged in\n");
}

#[test]
fn status_view_accessors() {
    let view = AuthStatusView::new(AuthStatus::LoggedIn {
        source: "keyring".into(),
        subject: None,
        expires_in: None,
    });
    assert_eq!(view.symbol(), "✓");
    assert_eq!(view.title(), "Logged in");
    assert_eq!(view.source(), Some("keyring"));
    assert_eq!(view.subject(), None);
    assert_eq!(view.expires_in(), None);
}

#[test]
fn status_json_logged_in() {
    let status = AuthStatus::LoggedIn {
        source: "config".into(),
        subject: Some("user@example.com".into()),
        expires_in: Some(9000),
    };

    let json: serde_json::Value = serde_json::from_str(&status.to_json()).unwrap();
    assert_eq!(json["status"], "logged_in");
    assert_eq!(json["source"], "config");
    assert_eq!(json["subject"], "user@example.com");
    assert_eq!(json["expires_in"], 9000);
}

#[test]
fn status_json_expired() {
    let status = AuthStatus::Expired {
        source: "config".into(),
        subject: Some("admin".into()),
    };

    let json: serde_json::Value = serde_json::from_str(&status.to_json()).unwrap();
    assert_eq!(json["status"], "expired");
    assert_eq!(json["source"], "config");
    assert_eq!(json["subject"], "admin");
    assert!(json.get("expires_in").is_none());
}

#[test]
fn status_json_not_logged_in() {
    let status = AuthStatus::NotLoggedIn;

    let json: serde_json::Value = serde_json::from_str(&status.to_json()).unwrap();
    assert_eq!(json["status"], "not_logged_in");
    assert!(json.get("source").is_none());
    assert!(json.get("subject").is_none());
    assert!(json.get("expires_in").is_none());
}

#[test]
fn status_json_exact_text() {
    let status = AuthStatus::LoggedIn { source: "env".into(), subject: None, expires_in: Some(-5) };
    assert_eq!(
        status.to_json(),
        "{\n  \"status\": \"logged_in\",\n  \"source\": \"env\",\n  \"expires_in\": -5\n}"
    );
}

#[test]
fn browser_login_polls() {
    let mut b = BrowserLogin::new();
    assert_eq!(b.observe("pending"), BrowserPoll::Wait);
    assert_eq!(b.polls, 1);
    assert_eq!(b.observe("approved"), BrowserPoll::Consume);
    assert_eq!(
        BrowserLogin::new().observe("expired"),
        BrowserPoll::Failed("browser login timed out".to_string())
    );
    assert_eq!(
        BrowserLogin::new().observe("consumed"),
        BrowserPoll::Failed("browser login session was already consumed".to_string())
    );
    assert_eq!(
        BrowserLogin::new().observe("weird"),
        BrowserPoll::Failed("invalid browser login status".to_string())
    );
    let mut last = BrowserLogin { polls: BROWSER_LOGIN_POLLS - 1 };
    assert_eq!(last.observe("pending"), BrowserPoll::Failed("browser login timed out".to_string()));
}

#[test]
fn browser_prompt_text() {
    assert_eq!(
        browser_prompt(false, "https://d1v.ai/cli/abc"),
        (false, "Open this URL in your browser:\nhttps://d1v.ai/cli/abc".to_string())
    );
    assert!(browser_prompt(true, "x").0);
}

#[test]
fn credential_checks() {
    assert_eq!(credential_check(true, false, false), CredentialCheck::Verify);
    assert_eq!(credential_check(true, true, true), CredentialCheck::BrowserLogin);
    assert_eq!(credential_check(true, true, false), CredentialCheck::Expired);
    assert_eq!(credential_check(false, false, false), CredentialCheck::NotLoggedIn);
    assert_eq!(credential_check(false, false, true), CredentialCheck::BrowserLogin);
}

#[test]
fn auth_failures() {
    let api = |denied: bool, m: &str| RequestFailure::Api { denied, message: m.to_string() };
    assert!(is_auth_failure(&api(true, "x")));
    assert!(is_auth_failure(&api(false, "Invalid API Key provided")));
    assert!(!is_auth_failure(&api(false, "not found")));
    assert!(is_auth_failure(&RequestFailure::HttpStatus(401)));
    assert!(is_auth_failure(&RequestFailure::HttpStatus(403)));
    assert!(!is_auth_failure(&RequestFailure::HttpStatus(500)));
    assert!(!is_auth_failure(&RequestFailure::Other));
    assert_eq!(after_rejection(&RequestFailure::HttpStatus(401), true), AfterRejection::BrowserLogin);
    assert_eq!(after_rejection(&RequestFailure::HttpStatus(401), false), AfterRejection::Invalid);
    assert_eq!(after_rejection(&RequestFailure::Other, true), AfterRejection::PassOn);
}

#[test]
fn device_ids() {
    assert_eq!(stored_device_id("  abcdefghijklmnop \n"), Some("abcdefghijklmnop".to_string()));
    assert_eq!(stored_device_id("short"), None);
    assert_eq!(stored_device_id(&"x".repeat(129)), None);
    assert_eq!(stored_device_id(&"x".repeat(128)), Some("x".repeat(128)));
    let id = new_device_id().unwrap();
    assert_eq!(id.len(), 43);
    assert!(id.chars().all(|c| c.is_ascii_alphanumeric() || c == '-' || c == '_'));
    assert!(stored_device_id(&device_id_file_text(&id)).is_some());
    assert_eq!(device_id_file_text("abc"), "abc\n");
    assert_eq!(piped_secret("  key-1 \n"), "key-1");
}
