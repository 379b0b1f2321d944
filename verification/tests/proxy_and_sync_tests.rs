use cockpit_instances::electron::{
    clear_electron_user_data_auth_state, electron_auth_marker_content,
    electron_auth_marker_matches, electron_auth_reset_plan,
};
use cockpit_instances::kiro_proxy::{
    bearer_token, check_node, credits_path, current_status, node_major_version, proxy_endpoint,
    sidecar_env, started_status, test_model_outcome, KiroProxyConfig, KiroProxyStatus,
    ModelReply, NodeProbe, SidecarState,
};
use cockpit_instances::sync::{
    sync_shared_directory, sync_shared_directory_preserving_entries, sync_shared_file,
    sync_shared_history_file, sync_shared_live_file, HistoryDirAction, HistoryDirState,
    InstanceFileState, LiveFileState, SharedDirAction, SharedDirState, SharedFileAction,
    SharedFileEntry, next_dir_link_method, prepare_directory_copy_fallback_target, DirLinkMethod,
    CopyTargetState, CopyTargetAction,
};

#[test]
fn shared_directory_actions() {
    assert_eq!(sync_shared_directory(SharedDirState::Missing), SharedDirAction::Link);
    assert_eq!(sync_shared_directory(SharedDirState::Link { to_shared: true }), SharedDirAction::Keep);
    assert_eq!(sync_shared_directory(SharedDirState::Link { to_shared: false }), SharedDirAction::Relink);
    assert_eq!(sync_shared_directory(SharedDirState::NotDirectory), SharedDirAction::Reject);
    assert_eq!(sync_shared_directory(SharedDirState::Directory { empty: true, shared_empty: true }), SharedDirAction::ReplaceEmpty);
    assert_eq!(sync_shared_directory(SharedDirState::Directory { empty: false, shared_empty: true }), SharedDirAction::MigrateToShared);
    assert_eq!(sync_shared_directory(SharedDirState::Directory { empty: false, shared_empty: false }), SharedDirAction::Replace);
}

#[test]
fn history_directory_actions() {
    assert_eq!(sync_shared_directory_preserving_entries(HistoryDirState::Directory { same_as_shared: true }), HistoryDirAction::Keep);
    assert_eq!(sync_shared_directory_preserving_entries(HistoryDirState::Directory { same_as_shared: false }), HistoryDirAction::MergeThenLink);
    assert_eq!(sync_shared_directory_preserving_entries(HistoryDirState::Missing), HistoryDirAction::Link);
    assert_eq!(sync_shared_directory_preserving_entries(HistoryDirState::NotDirectory), HistoryDirAction::Reject);
}

#[test]
fn shared_file_actions() {
    assert_eq!(sync_shared_file(SharedFileEntry::Missing, InstanceFileState::Missing), SharedFileAction::Nothing);
    assert_eq!(sync_shared_file(SharedFileEntry::Missing, InstanceFileState::File { same_entry: false }), SharedFileAction::PromoteThenLink);
    assert_eq!(sync_shared_file(SharedFileEntry::Missing, InstanceFileState::Link { to_shared: false }), SharedFileAction::DropLinkThenFail);
    assert_eq!(sync_shared_file(SharedFileEntry::Other, InstanceFileState::Missing), SharedFileAction::Reject);
    assert_eq!(sync_shared_file(SharedFileEntry::File, InstanceFileState::File { same_entry: true }), SharedFileAction::Keep);
    assert_eq!(sync_shared_file(SharedFileEntry::File, InstanceFileState::File { same_entry: false }), SharedFileAction::Replace);
    assert_eq!(sync_shared_file(SharedFileEntry::File, InstanceFileState::Link { to_shared: false }), SharedFileAction::Relink);
}

#[test]
fn live_file_plans() {
    let keep = sync_shared_live_file(LiveFileState::Link { to_shared: true }, false, true);
    assert!(keep.keep && !keep.link && !keep.create_empty_shared);
    let fresh = sync_shared_live_file(LiveFileState::Absent, false, true);
    assert!(fresh.create_empty_shared && fresh.link && !fresh.remove_link);
    let own = sync_shared_history_file(LiveFileState::Entry, false);
    assert!(own.backup_and_remove && !own.link && !own.create_empty_shared);
    let elsewhere = sync_shared_history_file(LiveFileState::Link { to_shared: false }, true);
    assert!(elsewhere.remove_link && elsewhere.link);
}

#[test]
fn electron_marker_round_trip() {
    let marker = electron_auth_marker_content("acct \"1\"", 1_715_000_000_000);
    assert_eq!(marker, "{\"account_id\":\"acct \\\"1\\\"\",\"prepared_at\":1715000000000}\n");
    assert!(electron_auth_marker_matches(&Some(marker), "acct \"1\""));
    assert!(electron_auth_marker_matches(&Some("{\"account_id\": \"x\"}".to_string()), "x"));
    assert!(!electron_auth_marker_matches(&Some("{\"account_id\":\"xy\"}".to_string()), "x"));
    assert!(!electron_auth_marker_matches(&None, "x"));
    let with_backslash = electron_auth_marker_content("a\\b", 1);
    assert!(!electron_auth_marker_matches(&Some(with_backslash), "a\\b"));
}

#[test]
fn electron_reset_plans() {
    let marker = Some("{\"account_id\":\"instance\"}\n".to_string());
    assert!(electron_auth_reset_plan(&marker, "instance", 5).is_none());
    let plan = electron_auth_reset_plan(&marker, "other", 5).unwrap();
    assert_eq!(plan.remove.len(), 16);
    assert_eq!(plan.remove[0], "Local Storage");
    assert_eq!(plan.remove[15], "Preferences");
    assert_eq!(plan.marker, "{\"account_id\":\"other\",\"prepared_at\":5}\n");
    let plan = clear_electron_user_data_auth_state(&None, "z").unwrap();
    assert!(plan.marker.starts_with("{\"account_id\":\"z\",\"prepared_at\":"));
}

#[test]
fn node_versions() {
    assert_eq!(node_major_version("v18.17.0"), 18);
    assert_eq!(node_major_version("vv20"), 20);
    assert_eq!(node_major_version("node"), 0);
    let ok = check_node(NodeProbe::Finished { success: true, stdout: b"v20.11.1\n".to_vec(), stderr: Vec::new() });
    assert!(ok.available);
    assert_eq!(ok.version.as_deref(), Some("v20.11.1"));
    assert_eq!(ok.error, None);
    let old = check_node(NodeProbe::Finished { success: true, stdout: b"v16.20.2".to_vec(), stderr: Vec::new() });
    assert!(!old.available);
    assert_eq!(old.error.as_deref(), Some("需要 Node.js >= 18"));
    let failed = check_node(NodeProbe::Finished { success: false, stdout: Vec::new(), stderr: b" boom \n".to_vec() });
    assert_eq!(failed.error.as_deref(), Some("boom"));
    assert_eq!(failed.version, None);
    let missing = check_node(NodeProbe::SpawnFailed("not found".to_string()));
    assert_eq!(missing.error.as_deref(), Some("未检测到 node 命令: not found"));
}

#[test]
fn sidecar_environment_and_status() {
    let cfg = KiroProxyConfig::default();
    assert_eq!(cfg.port, 3456);
    assert_eq!(sidecar_env(&cfg), vec![("PORT".to_string(), "3456".to_string())]);
    let cfg = KiroProxyConfig { port: 8080, api_key: Some(" key ".to_string()), https_proxy: Some("  ".to_string()) };
    assert_eq!(
        sidecar_env(&cfg),
        vec![("PORT".to_string(), "8080".to_string()), ("PROXY_API_KEY".to_string(), " key ".to_string())]
    );
    let status = started_status(8080, 77, "/x/server.js".to_string());
    assert!(status.running && status.deps_installed);
    assert_eq!(status.pid, Some(77));
    let idle = current_status(None, true, None);
    assert!(!idle.running && idle.deps_installed && idle.port.is_none());
    let running = current_status(Some((1, 2)), false, Some("p".to_string()));
    assert_eq!((running.port, running.pid), (Some(1), Some(2)));
    let default = KiroProxyStatus::default();
    assert!(!default.running && default.server_path.is_none());
}

#[test]
fn sidecar_requests() {
    assert_eq!(proxy_endpoint(Some(3456), "/health").unwrap(), "http://127.0.0.1:3456/health");
    assert_eq!(proxy_endpoint(None, "/health").unwrap_err(), "kiro-proxy 未运行");
    assert_eq!(credits_path(&None), "/credits?period=today");
    assert_eq!(credits_path(&Some("7d".to_string())), "/credits?period=7d");
    assert_eq!(bearer_token(Some(" ".to_string())), None);
    assert_eq!(bearer_token(Some("k".to_string())).as_deref(), Some("k"));
    assert_eq!(bearer_token(None), None);
}

#[test]
fn model_test_outcomes() {
    let reply = ModelReply {
        content_texts: Some(vec![Some("Hel".to_string()), None, Some("lo".to_string())]),
        error_message: None,
        message: None,
    };
    assert_eq!(test_model_outcome(true, 200, &reply), (true, "Hello".to_string()));
    let failed = ModelReply { content_texts: None, error_message: None, message: Some("Invalid model".to_string()) };
    assert_eq!(test_model_outcome(false, 400, &failed), (false, "HTTP 400: Invalid model".to_string()));
    let bare = ModelReply { content_texts: None, error_message: None, message: None };
    assert_eq!(test_model_outcome(false, 500, &bare), (false, "HTTP 500: unknown error".to_string()));
    assert_eq!(test_model_outcome(true, 200, &bare), (true, String::new()));
}

#[test]
fn sidecar_start_stops_first_and_records_the_port() {
    let mut state = SidecarState::stopped();
    assert_eq!(state.current_port(), None);
    let cfg = KiroProxyConfig { port: 4000, api_key: None, https_proxy: None };
    let (stopped, check) = state.begin_start(true, "/s");
    assert_eq!(stopped, None);
    assert!(check.is_ok());
    let st = state.finish_start(&cfg, 42, "/s/server.js".to_string());
    assert!(st.running && st.deps_installed);
    assert_eq!(st.port, Some(4000));
    assert_eq!(st.pid, Some(42));
    assert_eq!(state.current_port(), Some(4000));

    let (stopped, check) = state.begin_start(false, "/s");
    assert_eq!(stopped, Some(42));
    assert_eq!(check, Err("/s 下尚未安装依赖,请先调用安装".to_string()));
    assert_eq!(state.current_port(), None);
    assert_eq!(state.stop(), None);
}

#[test]
fn directory_link_fallbacks() {
    assert_eq!(next_dir_link_method(DirLinkMethod::Symlink), Some(DirLinkMethod::Junction));
    assert_eq!(next_dir_link_method(DirLinkMethod::Junction), Some(DirLinkMethod::Copy));
    assert_eq!(next_dir_link_method(DirLinkMethod::Copy), None);
    assert_eq!(prepare_directory_copy_fallback_target(CopyTargetState::Absent), CopyTargetAction::Proceed);
    assert_eq!(prepare_directory_copy_fallback_target(CopyTargetState::Link), CopyTargetAction::RemoveLink);
    assert_eq!(prepare_directory_copy_fallback_target(CopyTargetState::EmptyDirectory), CopyTargetAction::RemoveEmptyDirectory);
    assert_eq!(prepare_directory_copy_fallback_target(CopyTargetState::Occupied), CopyTargetAction::Refuse);
}
