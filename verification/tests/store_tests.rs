use cockpit_instances::store::{
    clear_all_pids, create_instance, delete_instance, ensure_unique, find_instance_index,
    load_default_settings, normalize_name, parse_init_mode, plan_create_instance,
    record_instance_launch, replace_bind_account_references, update_default_pid,
    update_default_settings, update_instance, update_instance_after_cli_prepare,
    update_instance_after_start_resolved, update_instance_pid, CopySource, CreateInstanceParams,
    DefaultInstanceSettings, InstanceInitMode, InstanceLaunchMode, InstanceProfile, InstanceStore,
    UpdateInstanceParams,
};

fn profile(id: &str, name: &str, dir: &str, bind: Option<&str>) -> InstanceProfile {
    InstanceProfile {
        id: id.to_string(),
        name: name.to_string(),
        user_data_dir: dir.to_string(),
        working_dir: None,
        extra_args: String::new(),
        bind_account_id: bind.map(str::to_string),
        launch_mode: InstanceLaunchMode::App,
        created_at: 1_700_000_000_000,
        last_launched_at: None,
        last_pid: Some(7),
    }
}

fn sample_store() -> InstanceStore {
    InstanceStore {
        instances: vec![
            profile("a", "Work", "/codex/work", Some("acct-1")),
            profile("b", "Home", "/codex/home", None),
            profile("c", "Lab", "   ", Some("acct-1")),
        ],
        default_settings: DefaultInstanceSettings {
            bind_account_id: Some("acct-1".to_string()),
            extra_args: "--fast".to_string(),
            follow_local_account: true,
            launch_mode: InstanceLaunchMode::App,
            last_pid: Some(99),
        },
    }
}

fn update_params(id: &str) -> UpdateInstanceParams {
    UpdateInstanceParams {
        instance_id: id.to_string(),
        name: None,
        working_dir: None,
        extra_args: None,
        bind_account_id: None,
        launch_mode: None,
    }
}

fn create_params(name: &str, dir: &str) -> CreateInstanceParams {
    CreateInstanceParams {
        name: name.to_string(),
        user_data_dir: dir.to_string(),
        working_dir: Some(" /w ".to_string()),
        extra_args: "  --x  ".to_string(),
        bind_account_id: Some("acct-9".to_string()),
        copy_source_instance_id: None,
        init_mode: None,
        launch_mode: None,
    }
}

#[test]
fn find_instance_index_returns_first_match() {
    let mut store = sample_store();
    store.instances.push(profile("b", "Other", "/x", None));
    assert_eq!(find_instance_index(&store.instances, "b"), Some(1));
    assert_eq!(find_instance_index(&store.instances, "zzz"), None);
}

#[test]
fn update_instance_pid_sets_only_that_instance() {
    let mut store = sample_store();
    let updated = update_instance_pid(&mut store, "b", Some(4242)).unwrap();
    assert_eq!(updated.last_pid, Some(4242));
    assert_eq!(store.instances[1].last_pid, Some(4242));
    assert_eq!(store.instances[0].last_pid, Some(7));
    assert_eq!(store.default_settings.last_pid, Some(99));
}

#[test]
fn update_instance_pid_reports_missing_instance() {
    let mut store = sample_store();
    let err = update_instance_pid(&mut store, "nope", None).unwrap_err();
    assert_eq!(err, "实例不存在");
    assert_eq!(store.instances.len(), 3);
    assert_eq!(store.instances[1].last_pid, Some(7));
}

#[test]
fn record_instance_launch_stores_time_and_pid() {
    let mut store = sample_store();
    let updated = record_instance_launch(&mut store, "a", Some(11), 123_456).unwrap();
    assert_eq!(updated.last_launched_at, Some(123_456));
    assert_eq!(updated.last_pid, Some(11));
    assert_eq!(store.instances[0].last_launched_at, Some(123_456));
}

#[test]
fn launch_updates_use_the_clock() {
    let mut store = sample_store();
    let started = update_instance_after_start_resolved(&mut store, "a", Some(5)).unwrap();
    assert!(started.last_launched_at.unwrap() > 1_600_000_000_000);
    assert_eq!(started.last_pid, Some(5));
    let prepared = update_instance_after_cli_prepare(&mut store, "b").unwrap();
    assert!(prepared.last_launched_at.is_some());
    assert_eq!(prepared.last_pid, None);
    assert!(update_instance_after_cli_prepare(&mut store, "nope").is_err());
}

#[test]
fn default_pid_and_clearing_pids() {
    let mut store = sample_store();
    let settings = update_default_pid(&mut store, Some(1));
    assert_eq!(settings.last_pid, Some(1));
    clear_all_pids(&mut store);
    assert_eq!(store.default_settings.last_pid, None);
    assert!(store.instances.iter().all(|p| p.last_pid.is_none()));
    assert_eq!(load_default_settings(&store).extra_args, "--fast");
}

#[test]
fn binding_an_account_stops_following_the_local_one() {
    let mut store = sample_store();
    let s = update_default_settings(&mut store, Some(Some("acct-2".to_string())), None, None, None);
    assert_eq!(s.bind_account_id.as_deref(), Some("acct-2"));
    assert!(!s.follow_local_account);
}

#[test]
fn following_the_local_account_clears_the_binding() {
    let mut store = sample_store();
    store.default_settings.follow_local_account = false;
    let s = update_default_settings(&mut store, None, Some("  -v  ".to_string()), Some(true), Some(InstanceLaunchMode::Cli));
    assert!(s.follow_local_account);
    assert_eq!(s.bind_account_id, None);
    assert_eq!(s.extra_args, "-v");
    assert_eq!(s.launch_mode, InstanceLaunchMode::Cli);
    assert_eq!(store.default_settings.extra_args, "-v");
}

#[test]
fn not_following_keeps_flag_while_an_account_is_bound() {
    let mut store = sample_store();
    let s = update_default_settings(&mut store, None, None, Some(false), None);
    assert!(s.follow_local_account);
    store.default_settings.bind_account_id = None;
    let s = update_default_settings(&mut store, None, None, Some(false), None);
    assert!(!s.follow_local_account);
}

#[test]
fn update_instance_trims_and_clears() {
    let mut store = sample_store();
    let mut params = update_params("a");
    params.name = Some("  Renamed ".to_string());
    params.extra_args = Some(" --a ".to_string());
    params.working_dir = Some("   ".to_string());
    params.bind_account_id = Some(None);
    params.launch_mode = Some(InstanceLaunchMode::Cli);
    let p = update_instance(&mut store, params).unwrap();
    assert_eq!(p.name, "Renamed");
    assert_eq!(p.extra_args, "--a");
    assert_eq!(p.working_dir, None);
    assert_eq!(p.bind_account_id, None);
    assert_eq!(p.launch_mode, InstanceLaunchMode::Cli);
    assert_eq!(p.user_data_dir, "/codex/work");
    assert_eq!(store.instances[0].name, "Renamed");

    let mut params = update_params("a");
    params.working_dir = Some(" /src ".to_string());
    let p = update_instance(&mut store, params).unwrap();
    assert_eq!(p.working_dir.as_deref(), Some("/src"));
}

#[test]
fn update_instance_refuses_taken_or_blank_names() {
    let mut store = sample_store();
    let mut params = update_params("a");
    params.name = Some(" Home ".to_string());
    assert_eq!(update_instance(&mut store, params).unwrap_err(), "实例名称已存在");
    let mut params = update_params("a");
    params.name = Some("   ".to_string());
    assert_eq!(update_instance(&mut store, params).unwrap_err(), "实例名称不能为空");
    let mut params = update_params("a");
    params.name = Some("Work".to_string());
    assert!(update_instance(&mut store, params).is_ok());
    assert_eq!(update_instance(&mut store, update_params("x")).unwrap_err(), "实例不存在");
    assert_eq!(store.instances[0].name, "Work");
}

#[test]
fn ensure_unique_checks_names_then_directories() {
    let store = sample_store();
    assert_eq!(ensure_unique(&store.instances, "Home", "/new", None).unwrap_err(), "实例名称已存在");
    assert_eq!(ensure_unique(&store.instances, "New", "/codex/home", None).unwrap_err(), "实例目录已存在");
    assert!(ensure_unique(&store.instances, "Home", "/codex/home", Some("b")).is_ok());
    assert_eq!(normalize_name("  x ").unwrap(), "x");
    assert!(normalize_name(" \t ").is_err());
}

#[test]
fn delete_instance_returns_directory_to_remove() {
    let mut store = sample_store();
    assert_eq!(delete_instance(&mut store, "b").unwrap().as_deref(), Some("/codex/home"));
    assert_eq!(store.instances.len(), 2);
    assert_eq!(store.instances[1].id, "c");
    assert_eq!(delete_instance(&mut store, "c").unwrap(), None);
    assert_eq!(delete_instance(&mut store, "c").unwrap_err(), "实例不存在");
    assert_eq!(store.instances.len(), 1);
}

#[test]
fn replacing_an_account_twice_changes_nothing_the_second_time() {
    let mut store = sample_store();
    assert!(replace_bind_account_references(&mut store, " acct-1 ", "acct-2"));
    assert_eq!(store.default_settings.bind_account_id.as_deref(), Some("acct-2"));
    assert!(!store.default_settings.follow_local_account);
    assert_eq!(store.instances[0].bind_account_id.as_deref(), Some("acct-2"));
    assert_eq!(store.instances[1].bind_account_id, None);
    assert_eq!(store.instances[2].bind_account_id.as_deref(), Some("acct-2"));
    assert!(!replace_bind_account_references(&mut store, "acct-1", "acct-2"));
    assert!(!replace_bind_account_references(&mut store, "acct-2", "  "));
    assert!(!replace_bind_account_references(&mut store, "acct-2", "acct-2 "));
}

#[test]
fn init_modes_are_read_case_insensitively() {
    assert_eq!(parse_init_mode(&None), InstanceInitMode::Copy);
    assert_eq!(parse_init_mode(&Some("EMPTY".to_string())), InstanceInitMode::Empty);
    assert_eq!(parse_init_mode(&Some("ExistingDir".to_string())), InstanceInitMode::ExistingDir);
    assert_eq!(parse_init_mode(&Some("existing_dir".to_string())), InstanceInitMode::ExistingDir);
    assert_eq!(parse_init_mode(&Some(" empty".to_string())), InstanceInitMode::Copy);
}

#[test]
fn plan_create_instance_checks_in_order() {
    let store = sample_store();
    assert_eq!(plan_create_instance(&store, &create_params(" ", " ")).unwrap_err(), "实例名称不能为空");
    assert_eq!(plan_create_instance(&store, &create_params("New", "  ")).unwrap_err(), "实例目录不能为空");
    assert_eq!(plan_create_instance(&store, &create_params("Home", "/n")).unwrap_err(), "实例名称已存在");
    assert_eq!(plan_create_instance(&store, &create_params("New", " /codex/work ")).unwrap_err(), "实例目录已存在");
    let mut params = create_params("New", "/n");
    params.copy_source_instance_id = Some("missing".to_string());
    assert_eq!(plan_create_instance(&store, &params).unwrap_err(), "复制来源实例不存在");
    params.init_mode = Some("empty".to_string());
    let plan = plan_create_instance(&store, &params).unwrap();
    assert_eq!(plan.init_mode, InstanceInitMode::Empty);
    assert!(plan.copy_source.is_none());
}

#[test]
fn plan_create_instance_names_the_copy_source() {
    let store = sample_store();
    let mut params = create_params(" New ", " /n ");
    let plan = plan_create_instance(&store, &params).unwrap();
    assert_eq!(plan.name, "New");
    assert_eq!(plan.user_data_dir, "/n");
    assert!(matches!(plan.copy_source, Some(CopySource::DefaultHome)));
    params.copy_source_instance_id = Some("__default__".to_string());
    assert!(matches!(plan_create_instance(&store, &params).unwrap().copy_source, Some(CopySource::DefaultHome)));
    params.copy_source_instance_id = Some("b".to_string());
    match plan_create_instance(&store, &params).unwrap().copy_source {
        Some(CopySource::InstanceDir(dir)) => assert_eq!(dir, "/codex/home"),
        other => panic!("unexpected source {:?}", other),
    }
}

#[test]
fn create_instance_appends_a_fresh_profile() {
    let mut store = sample_store();
    let params = create_params("New", "/n");
    let plan = plan_create_instance(&store, &params).unwrap();
    let p = create_instance(&mut store, plan, params.clone());
    assert_eq!(store.instances.len(), 4);
    assert_eq!(store.instances[3].id, p.id);
    assert_eq!(p.id.len(), 36);
    for (i, c) in p.id.chars().enumerate() {
        if i == 8 || i == 13 || i == 18 || i == 23 {
            assert_eq!(c, '-');
        } else {
            assert!(c.is_ascii_digit() || ('a'..='f').contains(&c));
        }
    }
    assert_eq!(p.id.chars().nth(14), Some('4'));
    assert!(matches!(p.id.chars().nth(19), Some('8' | '9' | 'a' | 'b')));
    assert_eq!(p.name, "New");
    assert_eq!(p.extra_args, "--x");
    assert_eq!(p.working_dir.as_deref(), Some(" /w "));
    assert_eq!(p.bind_account_id.as_deref(), Some("acct-9"));
    assert_eq!(p.launch_mode, InstanceLaunchMode::App);
    assert!(p.created_at > 1_600_000_000_000);
    assert_eq!(p.last_pid, None);

    let mut empty = create_params("Empty", "/e");
    empty.init_mode = Some("empty".to_string());
    let plan = plan_create_instance(&store, &empty).unwrap();
    let q = create_instance(&mut store, plan, empty);
    assert_eq!(q.bind_account_id, None);
    assert_ne!(q.id, p.id);
}
