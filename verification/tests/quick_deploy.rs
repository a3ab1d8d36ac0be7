use d1v_cli::env::vars::{
    env_var_detail, find_env_var, format_value, plan_env_set, sync_summary, EnvLabels, EnvVar,
    EnvVarList, EnvWrite, SyncEnvVarsResponse, SyncLabels,
};
use d1v_cli::env::KeyValue;
use d1v_cli::quick_deploy::{
    env_assignments, env_project_id, key_map, merge_candidates, merged_env, with_project_id,
    MergeCandidate,
};
use d1v_cli::text::RenderDisplay;

fn render<T: d1v_cli::text::Render>(view: T) -> String {
    RenderDisplay::new(view).to_string().unwrap()
}

fn pairs(items: &[(&str, &str)]) -> Vec<(String, String)> {
    items.iter().map(|(k, v)| (k.to_string(), v.to_string())).collect()
}

#[test]
fn project_id_is_read_from_env_text() {
    assert_eq!(env_project_id("A=1\n  D1V_PROJECT_ID= \"p_1\" \n"), Some("p_1".to_string()));
    assert_eq!(env_project_id("D1V_PROJECT_ID=''\nD1V_PROJECT_ID='p2'\n"), Some("p2".to_string()));
    assert_eq!(env_project_id("X=1\n"), None);
    assert_eq!(env_project_id(""), None);
}

#[test]
fn project_id_is_written_into_env_text() {
    assert_eq!(with_project_id("A=1\nD1V_PROJECT_ID=old\nB=2", "new"), "A=1\nD1V_PROJECT_ID=new\nB=2\n");
    assert_eq!(with_project_id("A=1\n", "p"), "A=1\nD1V_PROJECT_ID=p\n");
    assert_eq!(with_project_id("", "p"), "D1V_PROJECT_ID=p\n");
    assert_eq!(with_project_id("  D1V_PROJECT_ID=x\r\n", "p"), "D1V_PROJECT_ID=p\n");
}

#[test]
fn assignments_skip_comments_and_bad_keys() {
    let text = "# comment\n\nexport A = 1 \nB=two=2\nBAD KEY=3\n=4\nC_9=\n";
    assert_eq!(env_assignments(text), pairs(&[("A", "1"), ("B", "two=2"), ("C_9", "")]));
}

#[test]
fn key_map_sorts_and_keeps_last_values() {
    let m = key_map(&pairs(&[("b", "1"), ("a", "2"), ("b", "3"), ("c", "4"), ("a", "5")]));
    assert_eq!(m, pairs(&[("a", "5"), ("b", "3"), ("c", "4")]));
    assert_eq!(key_map(&vec![]), vec![]);
}

#[test]
fn cloud_values_merge_into_env() {
    let cloud = "B=cloud\nA=new\nC=same\n";
    let local = "# app\nexport A=old\nC=same\nD=local";
    let cands = merge_candidates(cloud, local, true);
    assert_eq!(
        cands,
        vec![
            MergeCandidate { key: "A".to_string(), value: "new".to_string(), ask: true },
            MergeCandidate { key: "B".to_string(), value: "cloud".to_string(), ask: false },
        ]
    );
    assert_eq!(
        merged_env(local, &cands, &vec![true, false]),
        Some("# app\nA=new\nC=same\nD=local\nB=cloud\n".to_string())
    );
    assert_eq!(
        merged_env(local, &cands, &vec![false, false]),
        Some("# app\nexport A=old\nC=same\nD=local\nB=cloud\n".to_string())
    );
    let quiet = merge_candidates(cloud, local, false);
    assert_eq!(quiet.len(), 1);
    assert_eq!(merged_env(local, &vec![], &vec![]), None);
}

fn var(id: i64, key: &str, sensitive: bool) -> EnvVar {
    EnvVar {
        id,
        key: key.to_string(),
        value: Some("secret".to_string()),
        value_preview: "se****".to_string(),
        description: None,
        is_sensitive: sensitive,
    }
}

fn labels() -> EnvLabels {
    EnvLabels {
        key: "Key".to_string(),
        value: "Value".to_string(),
        description: "Description".to_string(),
        sensitive: "Sensitive".to_string(),
        yes: "yes".to_string(),
        no: "no".to_string(),
    }
}

#[test]
fn env_values_are_masked_unless_revealed() {
    assert_eq!(format_value(&var(1, "A", true), false), "se****");
    assert_eq!(format_value(&var(1, "A", true), true), "secret");
    assert_eq!(format_value(&var(1, "A", false), false), "secret");
    let mut none = var(1, "A", false);
    none.value = None;
    assert_eq!(format_value(&none, true), "-");
}

#[test]
fn env_set_updates_existing_and_creates_new() {
    let existing = vec![var(7, "A", false), var(8, "B", false)];
    let entries = vec![
        KeyValue { key: "B".to_string(), value: "2".to_string() },
        KeyValue { key: "C".to_string(), value: "3".to_string() },
    ];
    assert_eq!(
        plan_env_set(&entries, &existing),
        vec![
            EnvWrite::Update { id: 8, value: "2".to_string() },
            EnvWrite::Create { key: "C".to_string(), value: "3".to_string() },
        ]
    );
    assert_eq!(find_env_var(&existing, Some(8), &None), Some(1));
    assert_eq!(find_env_var(&existing, None, &Some("A".to_string())), Some(0));
    assert_eq!(find_env_var(&existing, None, &Some("Z".to_string())), None);
}

#[test]
fn env_views_render_exactly() {
    assert_eq!(render(EnvVarList::new(&vec![], false, &labels(), "No variables.")), "No variables.\n");
    let list = render(EnvVarList::new(&vec![var(1, "TOKEN", true)], false, &labels(), "-"));
    assert!(list.contains("│ TOKEN │ se**** │ -           │ yes       │"));
    assert_eq!(
        render(env_var_detail(&var(1, "TOKEN", true), true, &labels())),
        "Key          TOKEN\nValue        secret\nDescription  -\nSensitive    yes\n"
    );
    let sync = SyncEnvVarsResponse {
        message: "ok".to_string(),
        vercel_dev_project_id: "dev".to_string(),
        dev_local_env_count: 3,
        dev_up_to_date: true,
        vercel_prod_project_id: "prod".to_string(),
        prod_local_env_count: 0,
        prod_up_to_date: false,
    };
    let sl = SyncLabels {
        message: "Message".to_string(),
        dev_project: "Dev project".to_string(),
        dev_env_count: "Dev vars".to_string(),
        dev_up_to_date: "Dev synced".to_string(),
        prod_project: "Prod project".to_string(),
        prod_env_count: "Prod vars".to_string(),
        prod_up_to_date: "Prod synced".to_string(),
        yes: "yes".to_string(),
        no: "no".to_string(),
    };
    assert_eq!(
        render(sync_summary(&sync, &sl)),
        "Message       ok\nDev project   dev\nDev vars      3\nDev synced    yes\nProd project  prod\nProd vars     0\nProd synced   no\n"
    );
}
