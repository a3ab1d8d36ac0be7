use d1v_cli::deploy::{admit_release, created_release_id};
use d1v_cli::quick_deploy::{lookup_project, ProjectLookup};
use d1v_cli::quick_deploy::{project_choices, project_pick, ProjectPick};

use d1v_cli::quick_deploy::{deployment_ready, deployment_requested};
use d1v_cli::deploy::{
    confirm_prompt, decision_for, deploy_history_view, deploy_logs_view, deploy_response_view,
    deploy_status_view, idempotency_key, keys_to_decide, needs_decision, preflight_summary,
    preview_phase, release_deployment, release_phase, DeploymentInfo, DeploymentResponse,
    PollOutcome, PreviewPhase, PreviewWait, ProductionRelease, ReleaseCheck, ReleaseChoice,
    ReleasePhase, ReleaseRefusal, ReleaseVariable, ReleaseWait,
};
use d1v_cli::project::{
    join_strings, project_detail_view, project_list_view, project_templates_view,
    render_ensure_status, resolve_ensure_project_id, resolve_project_id, EnsureResult,
    EnsureStatus, Project, ProjectCreateView, ProjectEnsureView, ProjectIdSources, Template,
    UpdateArgs,
};
use d1v_cli::text::RenderDisplay;

fn render<T: d1v_cli::text::Render>(view: T) -> String {
    RenderDisplay::new(view).to_string().unwrap()
}

fn deployment(message: &str) -> DeploymentResponse {
    DeploymentResponse {
        success: true,
        message: message.to_string(),
        commit_hash: None,
        production_url: None,
        vercel_url: None,
        deployment_id: None,
    }
}

#[test]
fn preview_phases_follow_the_status_message() {
    assert_eq!(preview_phase("Deployment ready"), PreviewPhase::Ready);
    assert_eq!(preview_phase("NOT_READY yet"), PreviewPhase::Pending);
    assert_eq!(preview_phase("build error"), PreviewPhase::Failed);
    assert_eq!(preview_phase("Canceled by user"), PreviewPhase::Failed);
    assert_eq!(preview_phase("building"), PreviewPhase::Pending);
}

#[test]
fn preview_wait_fills_in_url_and_id_from_the_request() {
    let mut started = deployment("started");
    started.vercel_url = Some("https://x.vercel.app".to_string());
    started.deployment_id = Some("dpl_1".to_string());
    let mut wait = PreviewWait::new(started);
    assert_eq!(wait.observe(deployment("BUILDING")), PollOutcome::Wait(2000));
    match wait.observe(deployment("READY")) {
        PollOutcome::Done(d) => {
            assert_eq!(d.production_url.as_deref(), Some("https://x.vercel.app"));
            assert_eq!(d.deployment_id.as_deref(), Some("dpl_1"));
            assert_eq!(d.message, "READY");
        }
        other => panic!("unexpected {other:?}"),
    }
    let mut failing = PreviewWait::new(deployment("s"));
    assert_eq!(
        failing.observe(deployment("ERROR: build")),
        PollOutcome::Failed("preview deployment failed: ERROR: build".to_string())
    );
}

#[test]
fn preview_wait_times_out_after_three_hundred_checks() {
    let mut wait = PreviewWait::new(deployment("s"));
    for _ in 0..299 {
        assert_eq!(wait.observe(deployment("QUEUED")), PollOutcome::Wait(2000));
    }
    assert_eq!(
        wait.observe(deployment("QUEUED")),
        PollOutcome::TimedOut(
            "preview deployment timed out after 10 minutes (deployment ID: unknown)".to_string()
        )
    );
}

#[test]
fn release_decisions_and_prompts() {
    let var = |needs: Option<bool>, dev: Option<bool>, prod: Option<bool>| ReleaseVariable {
        key: "K".to_string(),
        needs_value: needs,
        has_development_value: dev,
        has_production_value: prod,
    };
    assert!(needs_decision(&var(Some(true), None, None)));
    assert!(needs_decision(&var(None, Some(true), None)));
    assert!(needs_decision(&var(None, Some(true), Some(false))));
    assert!(!needs_decision(&var(None, Some(true), Some(true))));
    assert!(!needs_decision(&var(Some(false), None, None)));
    let mut a = var(Some(true), None, None);
    a.key = "A".to_string();
    let mut b = var(None, None, None);
    b.key = "B".to_string();
    assert_eq!(keys_to_decide(&vec![a, b]), vec!["A".to_string()]);
    assert_eq!(decision_for("A", ReleaseChoice::Development).action, "reuse_dev");
    assert_eq!(decision_for("A", ReleaseChoice::Production).action, "use_prod_existing");
    assert_eq!(decision_for("A", ReleaseChoice::Skip).action, "omit");
    assert_eq!(
        preflight_summary(Some(true), 3, &Some("managed".to_string())),
        "Release preflight: first_release=true env_vars=3 managed"
    );
    assert_eq!(preflight_summary(None, 0, &None), "Release preflight: first_release=false env_vars=0 ");
    assert_eq!(confirm_prompt("p1"), "Confirm production release for p1?");
    assert_eq!(idempotency_key(42, "2026-01-01T00:00:00Z"), "d1v-42-2026-01-01T00:00:00Z");
    assert_eq!(ReleaseRefusal::Canceled.message(), "production release canceled");
}

#[test]
fn release_wait_follows_status_and_skips_network_errors() {
    let release = |status: &str| ProductionRelease {
        id: Some("rel_1".to_string()),
        status: status.to_string(),
        phase: Some("build".to_string()),
        error_code: None,
        error_message: None,
        production_url: Some("https://p.example".to_string()),
        deployment_id: None,
    };
    assert_eq!(release_phase("SUCCEEDED"), ReleasePhase::Succeeded);
    assert_eq!(release_phase("Cancelled"), ReleasePhase::Failed);
    assert_eq!(release_phase("running"), ReleasePhase::Pending);
    let mut wait = ReleaseWait::new("rel_1".to_string());
    assert_eq!(wait.observe(ReleaseCheck::Unreachable), PollOutcome::Wait(2000));
    assert_eq!(wait.observe(ReleaseCheck::Status(release("running"))), PollOutcome::Wait(2000));
    assert_eq!(
        wait.observe(ReleaseCheck::Status(release("failed"))),
        PollOutcome::Failed(
            "production release failed (phase=build, code=-): unknown error".to_string()
        )
    );
    let done = release("ready");
    assert_eq!(wait.observe(ReleaseCheck::Status(done.clone())), PollOutcome::Done(done.clone()));
    let shown = release_deployment(&done);
    assert_eq!(shown.deployment_id.as_deref(), Some("rel_1"));
    assert_eq!(shown.message, "ready");
    let mut slow = ReleaseWait::new("rel_2".to_string());
    for _ in 0..299 {
        slow.observe(ReleaseCheck::Unreachable);
    }
    assert_eq!(
        slow.observe(ReleaseCheck::Unreachable),
        PollOutcome::TimedOut(
            "production release timed out after 10 minutes (release ID: rel_2)".to_string()
        )
    );
}

#[test]
fn deploy_views_render_exactly() {
    let mut d = deployment("ok");
    d.production_url = Some("https://p".to_string());
    assert_eq!(
        render(deploy_response_view("Preview deployment", &d)),
        "Preview deployment\n  Success         true\n  Message         ok\n  Production URL  https://p\n  Vercel URL      -\n  Commit          -\n  Deployment ID   -\n"
    );
    assert_eq!(render(deploy_history_view(&vec![])), "No deployments found.\n");
    let item = DeploymentInfo {
        id: "1".to_string(),
        environment: "preview".to_string(),
        status: "READY".to_string(),
        git_branch: None,
        created_at: "2026-01-01".to_string(),
        url: "u".to_string(),
    };
    let table = render(deploy_history_view(&vec![item.clone()]));
    assert!(table.contains("│ 1  │ preview │ READY  │ -      │ 2026-01-01 │ u   │"));
    assert_eq!(render(deploy_logs_view(true, "line")), "Build logs\nfrom_cache=true\n\nline\n");
    assert_eq!(
        render(deploy_status_view(&d, Some(&item))),
        "Deployment status\n\nPreview\n  success=true message=ok url=https://p\n\nLatest history\n  preview READY 2026-01-01 u\n"
    );
    assert!(render(deploy_status_view(&d, None)).ends_with("Latest history\n  -\n"));
}

fn project() -> Project {
    Project {
        id: "p1".to_string(),
        project_name: "Demo".to_string(),
        project_description: "A demo".to_string(),
        emoji: None,
        repository_full_name: Some("d1vai/demo".to_string()),
        repository_branch: None,
        workspace_current_branch: None,
        latest_preview_url: None,
        latest_dev_deployment_url: None,
        latest_prod_deployment_url: None,
        created_at: Some("2026-01-01 10:00:00".to_string()),
        updated_at: None,
        auto_deploy_on_execute: Some(true),
        analytics_enabled: None,
        project_database_id: None,
        project_pay_id: None,
    }
}

#[test]
fn project_id_resolution_order() {
    let none = ProjectIdSources { env_file: None, env_var: None, bound: None };
    assert_eq!(
        resolve_project_id(Some("  ".to_string()), none.clone()).unwrap_err(),
        "project id is required; pass PROJECT_ID or add D1V_PROJECT_ID to .env"
    );
    let all = ProjectIdSources {
        env_file: Some("from-env-file".to_string()),
        env_var: Some("from-var".to_string()),
        bound: Some("bound".to_string()),
    };
    assert_eq!(resolve_project_id(Some(" p ".to_string()), all.clone()).unwrap(), " p ");
    assert_eq!(resolve_ensure_project_id(Some(" p ".to_string()), all.clone()).unwrap(), "p");
    assert_eq!(resolve_project_id(None, all).unwrap(), "from-env-file");
    let later = ProjectIdSources { env_file: None, env_var: Some(" ".to_string()), bound: Some("bound".to_string()) };
    assert_eq!(resolve_project_id(None, later).unwrap(), "bound");
    assert!(resolve_ensure_project_id(None, none).unwrap_err().starts_with("project id is required. Set D1V_PROJECT_ID"));
}

#[test]
fn project_views_render_exactly() {
    let detail = render(project_detail_view("Project", &project()));
    assert!(detail.starts_with("Project Demo (p1)\n  Description       A demo\n  Emoji             -\n  Repository        d1vai/demo\n"));
    assert!(detail.contains("  Created           2026-01-01 10:00:00\n"));
    assert!(detail.contains("  Auto deploy       true\n  Analytics         -\n"));
    assert!(detail.ends_with("  Payments          -\n"));
    assert_eq!(render(project_list_view(&vec![])), "No projects found.\n");
    let list = render(project_list_view(&vec![project()]));
    assert!(list.contains("│ p1 │ Demo │ d1vai/demo │            │"));
    assert_eq!(render(project_templates_view(&vec![])), "No templates found.\n");
    let t = Template { template_repo: "r".to_string(), name: "n".to_string(), category: None, kind: Some("web".to_string()) };
    assert!(render(project_templates_view(&vec![t])).contains("│ r             │ n    │ -        │ web  │"));
    let created = render(ProjectCreateView::new(&project(), &None));
    assert!(created.starts_with("Created Demo (p1)\n"));
    assert!(!created.contains("Initial session"));
}

#[test]
fn ensure_view_lists_statuses_and_errors() {
    let s = |st: &str, err: Option<&str>| EnsureStatus {
        status: st.to_string(),
        message: "done".to_string(),
        error: err.map(str::to_string),
    };
    assert_eq!(render_ensure_status(&s("enabled", None)), "enabled: done");
    assert_eq!(render_ensure_status(&s("failed", Some("quota"))), "failed: done (quota)");
    assert_eq!(join_strings(&vec!["a".to_string(), "b".to_string()], "; "), "a; b");
    let result = EnsureResult {
        project_id: "p1".to_string(),
        project_name: "Demo".to_string(),
        database: s("enabled", None),
        pay: s("skipped", None),
        analytics: s("failed", Some("x")),
        errors: vec!["a".to_string(), "b".to_string()],
    };
    assert_eq!(
        render(ProjectEnsureView::new(&result)),
        "Ensured Demo (p1)\n  Database   enabled: done\n  Pay        skipped: done\n  Analytics  failed: done (x)\n  Errors  a; b\n"
    );
}

#[test]
fn update_without_changes_is_empty() {
    let mut u = UpdateArgs { project_id: None, name: None, description: None, emoji: None, auto_deploy: None };
    assert!(u.is_empty());
    u.auto_deploy = Some(false);
    assert!(!u.is_empty());
}

#[test]
fn shortcut_project_lookup_order() {
    let s = |x: &str| Some(x.to_string());
    assert_eq!(lookup_project(s("a"), s("b"), false), ProjectLookup::FromEnv("a".to_string()));
    assert_eq!(lookup_project(None, s("b"), false), ProjectLookup::FromBinding("b".to_string()));
    assert_eq!(lookup_project(None, None, true), ProjectLookup::Ask);
    assert_eq!(
        lookup_project(None, None, false),
        ProjectLookup::Missing(
            "D1V_PROJECT_ID is missing from .env; run `d1v project list` and set it before using a non-interactive shortcut"
                .to_string()
        )
    );
}

#[test]
fn shortcut_project_picker() {
    assert_eq!(
        project_choices(&vec![]).unwrap_err(),
        "no D1V projects found; create one with `d1v project create --name <name> --description <description>`"
    );
    let cs = project_choices(&vec![project()]).unwrap();
    assert_eq!(cs.len(), 2);
    assert_eq!(cs[0].value, "p1");
    assert_eq!(cs[0].label, "Demo (p1)");
    assert_eq!(cs[0].description.as_deref(), Some("A demo"));
    assert_eq!(cs[1].value, "");
    assert_eq!(cs[1].label, "Create a new project");
    assert_eq!(project_pick("p1".to_string(), None), ProjectPick::Existing("p1".to_string()));
    assert_eq!(
        project_pick(String::new(), Some("site".to_string())),
        ProjectPick::Create { name: "site".to_string(), description: "Created from local directory site".to_string() }
    );
    assert_eq!(
        project_pick(String::new(), None),
        ProjectPick::Create { name: "my-app".to_string(), description: "Created from local directory my-app".to_string() }
    );
}

#[test]
fn shortcut_reports() {
    let release = ProductionRelease {
        id: Some("r1".to_string()),
        status: "ready".to_string(),
        phase: None,
        error_code: None,
        error_message: None,
        production_url: Some("https://demo.d1v.app".to_string()),
        deployment_id: None,
    };
    let d = release_deployment(&release);
    assert!(d.success);
    assert_eq!(d.deployment_id.as_deref(), Some("r1"));
    assert_eq!(
        deployment_requested(false, "p1", &d),
        "Production deployment requested for p1\nready\nURL: https://demo.d1v.app"
    );
    assert_eq!(deployment_ready(false, &d), "Production release is READY: https://demo.d1v.app");
    let p = DeploymentResponse {
        success: true,
        message: "ok".to_string(),
        commit_hash: None,
        production_url: None,
        vercel_url: None,
        deployment_id: None,
    };
    assert_eq!(deployment_requested(true, "p2", &p), "Preview deployment requested for p2\nok\nURL: -");
    assert_eq!(deployment_ready(true, &p), "Preview deployment is READY: -");
}

#[test]
fn production_release_needs_terminal_and_confirmation() {
    assert_eq!(admit_release(false, true), Err(ReleaseRefusal::NotInteractive));
    assert_eq!(admit_release(true, false), Err(ReleaseRefusal::Canceled));
    assert_eq!(admit_release(true, true), Ok(()));
    let mut r = ProductionRelease {
        id: None,
        status: "queued".to_string(),
        phase: None,
        error_code: None,
        error_message: None,
        production_url: None,
        deployment_id: None,
    };
    assert_eq!(created_release_id(&r), Err(ReleaseRefusal::MissingId));
    r.id = Some("rel_1".to_string());
    assert_eq!(created_release_id(&r), Ok("rel_1".to_string()));
}
