use d1v_cli::api_key::{
    api_key_created, api_key_detail, find_api_key, new_key_name, prompted_description,
    revoke_step, ApiKeyLabels, ApiKeyList, ApiKeyLookupError, NewKeyName, RevokeStep,
    UserApiKey,
};
use d1v_cli::db::{
    approval_view, auto_review_view, db_affected_view, db_branches_view, db_message_view,
    db_rows_view, db_value_view, execute_view, migration_history_view, plan_view,
    project_token_view, validate_view, ApprovalResponse, AutoReviewResponse, DbBranch, DbSchema,
    DbSchemaView, ExecuteResponse, JsonCell, MigrationPlanRow, PlanResponse,
    ProjectTokenResponse, SchemaTable, ValidateResponse,
};
use d1v_cli::debug::{
    shown_subject, token_line, DebugInfo, DebugInfoView, DebugLabels, TokenExpiry, TokenInfo,
    TokenNotes,
};
use d1v_cli::failure::{exit_code, hint_key, is_cancelled, FailureKind};
use d1v_cli::github::{
    bind_url, connect_url_or_settings, github_installations_view, github_repositories_view,
    github_status_view, GitHubAppInstallation, GitHubAppRepository, GitHubAppStatus,
    GitHubImportAutoDeploy, GitHubImportView, ImportedProject,
};
use d1v_cli::session::{
    session_history_view, session_notice, session_response_view, ChatHistory,
    ExecuteSessionResponse, RuntimeSession, SessionStatusView,
};
use d1v_cli::text::RenderDisplay;

fn render<T: d1v_cli::text::Render>(view: T) -> String {
    RenderDisplay::new(view).to_string().unwrap()
}

#[test]
fn db_views_render_exactly() {
    assert_eq!(render(db_message_view("Create table", "ok")), "Create table\n  Message  ok\n");
    assert_eq!(render(db_affected_view("Insert row", 3)), "Insert row\n  Affected  3\n");
    let empty = DbSchema { default_schema: None, tables: vec![] };
    assert_eq!(render(DbSchemaView::new(&empty)), "No tables found.\n");
    let schema = DbSchema {
        default_schema: Some("public".to_string()),
        tables: vec![SchemaTable {
            schema: "public".to_string(),
            name: "users".to_string(),
            kind: "table".to_string(),
            column_count: 4,
            row_count: None,
        }],
    };
    let text = render(DbSchemaView::new(&schema));
    assert!(text.starts_with("Database schema (default: public)\n┌"));
    assert!(text.contains("│ public │ users │ table │ 4       │ -    │"));
    let branches = render(db_branches_view(&vec![DbBranch {
        id: "br-1".to_string(),
        name: "main".to_string(),
        primary: Some(true),
    }]));
    assert!(branches.contains("│ br-1 │ main │ true    │"));
    assert_eq!(render(db_value_view("Database data", "{}")), "Database data\n\n{}\n");
    assert_eq!(render(db_rows_view(&vec![])), "No rows found.\n");
    assert_eq!(
        render(db_rows_view(&vec!["{\"a\":1}".to_string(), "{\"a\":2}".to_string()])),
        "Rows (2)\n{\"a\":1}\n{\"a\":2}\n"
    );
}

#[test]
fn migration_views_render_exactly() {
    let plan = PlanResponse {
        plan_id: "pl_1".to_string(),
        project_id: "p1".to_string(),
        intent: "add users".to_string(),
        created_at: "now".to_string(),
    };
    assert_eq!(
        render(plan_view(&plan)),
        "Migration plan pl_1\n  Project  p1\n  Intent   add users\n  Created  now\n"
    );
    let v = ValidateResponse {
        job_id: "j".to_string(),
        plan_id: "pl".to_string(),
        stage: "validate".to_string(),
        status: "ok".to_string(),
        statement_count: 2,
        fallback_to_dry_run: None,
        warnings: vec!["w1".to_string(), "w2".to_string()],
    };
    let text = render(validate_view(&v));
    assert!(text.contains("  Statements        2\n  Dry-run fallback  -\n  Warnings          w1; w2\n"));
    let a = ApprovalResponse {
        approval_id: "ap".to_string(),
        plan_id: "pl".to_string(),
        status: "pending".to_string(),
        approval_token: None,
        created_at: "c".to_string(),
        expires_at: "e".to_string(),
    };
    assert!(render(approval_view("Migration approval", &a)).contains("  Approval token  -\n"));
    let review = AutoReviewResponse {
        status: "approved".to_string(),
        approval_token: Some("tok".to_string()),
        risk_score: None,
        reasons: Some(vec!["safe".to_string()]),
    };
    assert!(render(auto_review_view(&review)).ends_with("  Risk score      -\n  Reasons         safe\n"));
    let e = ExecuteResponse {
        job_id: "j".to_string(),
        plan_id: "pl".to_string(),
        stage: "s".to_string(),
        status: "done".to_string(),
        created_at: "c".to_string(),
        fallback_to_dry_run: Some(false),
    };
    assert!(render(execute_view(&e)).contains("Dry-run fallback  false"));
    let t = ProjectTokenResponse {
        expires_at: "soon".to_string(),
        scopes: vec![],
        project_token: "pt".to_string(),
    };
    assert_eq!(render(project_token_view("Project token", &t)), "Project token\n  Expires  soon\n  Scopes   -\n  Token    pt\n");
    let rows = vec![
        MigrationPlanRow {
            id: None,
            plan_id: Some(JsonCell::Text("pl_2".to_string())),
            intent: Some(JsonCell::Null),
            created_at: Some(JsonCell::Other("17".to_string())),
            status: None,
        },
        MigrationPlanRow {
            id: Some(JsonCell::Null),
            plan_id: Some(JsonCell::Text("ignored".to_string())),
            intent: None,
            created_at: None,
            status: Some(JsonCell::Text("ok".to_string())),
        },
    ];
    let history = render(migration_history_view(&rows));
    assert!(history.contains("│ pl_2    │ -      │ 17         │ -      │"));
    assert!(history.contains("│ -       │ -      │ -          │ ok     │"));
    assert_eq!(render(migration_history_view(&vec![])), "No migration history found.\n");
}

fn session() -> RuntimeSession {
    RuntimeSession {
        session_id: "s1".to_string(),
        project_id: "p1".to_string(),
        model: None,
        status: Some("running".to_string()),
        created_at: None,
        updated_at: None,
    }
}

#[test]
fn session_views_render_exactly() {
    let response = ExecuteSessionResponse {
        session_id: "s1".to_string(),
        session: session(),
        websocket_url: "wss://x".to_string(),
    };
    assert_eq!(
        render(session_response_view("Started session", &response)),
        "Started session s1\n  Project    p1\n  Model      -\n  Status     running\n  Created    -\n  WebSocket  wss://x\n"
    );
    assert_eq!(render(SessionStatusView::new(&None)), "No active session.\n");
    assert!(render(SessionStatusView::new(&Some(session()))).starts_with("Active session s1\n"));
    let long = "x".repeat(80);
    let text = render(session_history_view(&vec![ChatHistory {
        id: 7,
        direction: "user".to_string(),
        message_type: None,
        created_at: "t".to_string(),
        message_text: Some(long),
    }]));
    assert!(text.contains(&format!("│ 7  │ user      │ -    │ t          │ {} │", "x".repeat(72))));
    let empty_text = render(session_history_view(&vec![ChatHistory {
        id: 1,
        direction: "assistant".to_string(),
        message_type: Some("result".to_string()),
        created_at: "t".to_string(),
        message_text: Some(String::new()),
    }]));
    assert!(empty_text.contains("│ 1  │ assistant │ result │ t          │ -    │"));
    assert_eq!(session_notice("Started session", "s1"), "Started session s1");
}

fn status(connected: bool, valid: bool, configured: bool) -> GitHubAppStatus {
    GitHubAppStatus {
        configured,
        connected,
        token_valid: valid,
        github_login: Some("octo".to_string()),
        github_name: None,
        app_slug: None,
        app_install_url: None,
    }
}

#[test]
fn github_status_and_bind() {
    let text = render(github_status_view(&status(true, true, true)));
    assert!(text.starts_with("GitHub connected\n  Configured    true\n"));
    assert!(text.ends_with("  Settings URL  https://d1v.ai/setting?tab=github\n"));
    assert!(render(github_status_view(&status(true, false, true))).starts_with("GitHub connected, token invalid\n"));
    assert!(render(github_status_view(&status(false, false, true))).starts_with("GitHub not connected\n"));
    assert!(render(github_status_view(&status(false, false, false))).starts_with("GitHub App not configured\n"));
    assert_eq!(bind_url(true, &status(false, false, true)).as_deref(), Some("https://d1v.ai/setting?tab=github"));
    let mut s = status(true, true, true);
    s.app_install_url = Some("https://github.com/apps/d1v".to_string());
    assert_eq!(bind_url(false, &s).as_deref(), Some("https://github.com/apps/d1v"));
    assert_eq!(bind_url(false, &status(false, false, true)), None);
    assert_eq!(connect_url_or_settings(None), "https://d1v.ai/setting?tab=github");
    assert_eq!(connect_url_or_settings(Some("u".to_string())), "u");
}

#[test]
fn github_listings_and_import() {
    assert_eq!(render(github_installations_view(&vec![])), "No GitHub installations found.\n");
    let inst = GitHubAppInstallation {
        id: 12,
        account_login: Some("acme".to_string()),
        target_type: None,
        repository_selection: Some("all".to_string()),
        html_url: None,
    };
    assert!(render(github_installations_view(&vec![inst])).contains("│ 12 │ acme    │ -           │ all            │ -        │"));
    let repo = GitHubAppRepository {
        id: 5,
        full_name: "acme/web".to_string(),
        default_branch: "main".to_string(),
        is_private: true,
        language: None,
    };
    assert!(render(github_repositories_view(&vec![repo])).contains("│ 5  │ acme/web  │ main           │ private    │ -        │"));
    let project = ImportedProject {
        id: "p9".to_string(),
        project_name: "Web".to_string(),
        project_description: "d".to_string(),
        repository_full_name: Some("acme/web".to_string()),
        repository_current_branch: None,
        latest_preview_url: None,
        latest_prod_deployment_url: None,
        auto_deploy_on_execute: Some(false),
    };
    let auto = GitHubImportAutoDeploy {
        is_deployable: Some(true),
        framework: Some("next".to_string()),
        auto_deploy_queued: None,
        reason: None,
        monorepo_candidates: Some(vec!["apps/a".to_string(), "apps/b".to_string()]),
    };
    let text = render(GitHubImportView::new(&project, &Some(auto)));
    assert!(text.starts_with("Imported repository Web (p9)\n  Description  d\n"));
    assert!(text.contains("\n\nImport deployability\n  Deployable           true\n"));
    assert!(text.ends_with("  Monorepo candidates  apps/a, apps/b\n"));
    assert!(!render(GitHubImportView::new(&project, &None)).contains("Import deployability"));
}

fn key(id: i64, name: &str) -> UserApiKey {
    UserApiKey {
        id,
        name: name.to_string(),
        key_prefix: "d1v_ab".to_string(),
        description: None,
        created_at: Some("2026-01-01 00:00:00".to_string()),
        last_used_at: None,
    }
}

fn labels() -> ApiKeyLabels {
    ApiKeyLabels {
        id: "ID".to_string(),
        name: "Name".to_string(),
        prefix: "Prefix".to_string(),
        description: "Description".to_string(),
        created: "Created".to_string(),
        last_used: "Last used".to_string(),
    }
}

#[test]
fn api_keys_are_found_named_and_revoked() {
    let keys = vec![key(1, "ci"), key(2, "dev"), key(3, "ci")];
    assert_eq!(find_api_key(&keys, Some(2), &None), Ok(1));
    assert_eq!(find_api_key(&keys, None, &Some("ci".to_string())), Ok(0));
    assert_eq!(find_api_key(&keys, Some(9), &None), Err(ApiKeyLookupError::NoSuchId(9)));
    assert_eq!(
        find_api_key(&keys, None, &Some("x".to_string())),
        Err(ApiKeyLookupError::NoSuchName("x".to_string()))
    );
    assert_eq!(new_key_name(&Some("  ci  ".to_string()), false), NewKeyName::Given("ci".to_string()));
    assert_eq!(new_key_name(&Some("  ".to_string()), true), NewKeyName::Empty);
    assert_eq!(new_key_name(&None, true), NewKeyName::Prompt);
    assert_eq!(new_key_name(&None, false), NewKeyName::Required);
    assert_eq!(prompted_description("  x "), Some("x".to_string()));
    assert_eq!(prompted_description("   "), None);
    assert_eq!(revoke_step(true, false), RevokeStep::Revoke);
    assert_eq!(revoke_step(false, true), RevokeStep::Confirm);
    assert_eq!(revoke_step(false, false), RevokeStep::NeedsConfirmation);
}

#[test]
fn api_key_views_render_exactly() {
    assert_eq!(render(ApiKeyList::new(&vec![], &labels(), "No API keys.")), "No API keys.\n");
    let list = render(ApiKeyList::new(&vec![key(-1, "ci")], &labels(), "none"));
    assert!(list.contains("│ ID │ Name │ Prefix │ Description │ Created             │ Last used │"));
    assert!(list.contains("│ -1 │ ci   │ d1v_ab │ -           │ 2026-01-01 00:00:00 │ -         │"));
    assert_eq!(
        render(api_key_detail(&key(4, "ci"), &labels())),
        "ID           4\nName         ci\nPrefix       d1v_ab\nDescription  -\nCreated      2026-01-01 00:00:00\nLast used    -\n"
    );
    assert_eq!(render(api_key_created("Created ci", "d1v_secret", "Shown once")), "Created ci\nd1v_secret\nShown once\n");
}

#[test]
fn debug_token_line_and_view() {
    let notes = TokenNotes {
        found: "keyring".to_string(),
        expired: "expired".to_string(),
        expires_in: "expires in 1h".to_string(),
    };
    let found = TokenInfo::Found {
        source: "keyring".to_string(),
        subject: shown_subject(Some("user@example.com".to_string())),
        expiry: TokenExpiry::from_claims(Some(3600), false),
    };
    let info = DebugInfo {
        version: "0.1.0".to_string(),
        user_agent: "d1v-cli/0.1.0".to_string(),
        locale: "en-US".to_string(),
        features: "none".to_string(),
        config: "/c".to_string(),
        log_dir: "/l".to_string(),
        base_url: "https://api.d1v.ai".to_string(),
        token: found.clone(),
    };
    let labels = DebugLabels {
        version: "Version".to_string(),
        user_agent: "User agent".to_string(),
        locale: "Locale".to_string(),
        features: "Features".to_string(),
        config: "Config".to_string(),
        log_dir: "Log dir".to_string(),
        base_url: "Base URL".to_string(),
        token: "Token".to_string(),
    };
    let view = DebugInfoView::new(&info, &labels, token_line(&found, &notes));
    let text = render(view);
    assert!(text.starts_with("Version     0.1.0\nUser agent  d1v-cli/0.1.0\n"));
    assert!(text.ends_with("Token       ✓ (keyring) user@example.com (expires in 1h)\n"));
    let missing = DebugInfoView::new(&info, &labels, token_line(&TokenInfo::Missing, &notes));
    assert!(render(missing).ends_with("Token       ✗\n"));
    assert_eq!(shown_subject(Some(String::new())), None);
    assert_eq!(TokenExpiry::from_claims(None, true), TokenExpiry::Expired);
    assert_eq!(TokenExpiry::from_claims(None, false), TokenExpiry::Unknown);
}

#[test]
fn exit_codes_and_hints() {
    assert_eq!(exit_code(FailureKind::NotLoggedIn), 4);
    assert_eq!(exit_code(FailureKind::TokenExpired), 4);
    assert_eq!(exit_code(FailureKind::Cancelled), 2);
    assert_eq!(exit_code(FailureKind::Api { network: true, timeout: false, bad_url: false }), 3);
    assert_eq!(exit_code(FailureKind::Other), 1);
    assert_eq!(hint_key(FailureKind::Api { network: true, timeout: true, bad_url: false }), Some("hint-timeout"));
    assert_eq!(hint_key(FailureKind::Api { network: false, timeout: false, bad_url: true }), Some("hint-config"));
    assert_eq!(hint_key(FailureKind::Token), Some("hint-token-storage"));
    assert_eq!(hint_key(FailureKind::Io), None);
    assert!(is_cancelled(FailureKind::Cancelled));
    assert!(!is_cancelled(FailureKind::Other));
}
