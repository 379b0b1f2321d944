use cockpit_instances::history::{
    column_position, common_thread_columns, insert_thread_sql, materialized_session_ids,
    merge_global_state, merge_session_index, merge_session_index_into_default,
    merge_string_list, prune_materialized_shared_chat_entries, prune_session_index,
    quote_sqlite_identifier, read_jsonl_entries_by_id, render_session_index, select_threads_sql,
    sqlite_i64_value, sqlite_text_value, string_items, target_row_is_current,
    thread_row_merge_candidate, SqlValue, rewrite_instance_history_path_to_default,
    rollout_path_text, thread_row_to_insert, history_path_from, merged_thread_row, backup_record,
    thread_columns_found,
};

fn parse(text: &str) -> serde_json::Value {
    serde_json::from_str(text).unwrap()
}

fn strings(items: &[&str]) -> Vec<String> {
    items.iter().map(|s| s.to_string()).collect()
}

#[test]
fn reads_one_entry_per_id() {
    let text = "{\"id\":\"a\",\"updated_at\":5}\n\n  not json\n{\"id\":\" b \",\"updatedAt\":\"42\"}\r\n{\"id\":\"a\",\"updated_at\":9,\"title\":\"x\"}\n{\"id\":\"  \"}\n{\"id\":7}\n{\"id\":\"c\",\"cockpit_shared_chat\":{}}\n";
    let index = read_jsonl_entries_by_id(text);
    let ids: Vec<&str> = index.entries.iter().map(|e| e.id.as_str()).collect();
    assert_eq!(ids, vec!["a", "b", "c"]);
    assert_eq!(index.entries[0].updated_at, 9);
    assert_eq!(index.entries[0].line, "{\"id\":\"a\",\"title\":\"x\",\"updated_at\":9}");
    assert_eq!(index.entries[1].updated_at, 42);
    assert!(!index.entries[1].materialized);
    assert!(index.entries[2].materialized);
    assert_eq!(index.entries[2].updated_at, 0);
}

#[test]
fn updated_at_prefers_snake_case_even_when_unreadable() {
    let index = read_jsonl_entries_by_id("{\"id\":\"a\",\"updated_at\":null,\"updatedAt\":5}");
    assert_eq!(index.entries[0].updated_at, 0);
    let index = read_jsonl_entries_by_id("{\"id\":\"a\",\"updated_at\":\"x\"}");
    assert_eq!(index.entries[0].updated_at, 0);
}

#[test]
fn merging_takes_new_and_newer_entries_only() {
    let mut global = read_jsonl_entries_by_id("{\"id\":\"global\",\"updated_at\":100}\n{\"id\":\"shared\",\"updated_at\":50}\n");
    let source = read_jsonl_entries_by_id("{\"id\":\"shared\",\"updated_at\":40}\n{\"id\":\"instance\",\"updated_at\":200}\n{\"id\":\"fork\",\"cockpit_shared_chat\":{}}\n{\"id\":\"global\",\"updated_at\":101}\n");
    assert!(merge_session_index(&mut global, &source));
    let ids: Vec<&str> = global.entries.iter().map(|e| e.id.as_str()).collect();
    assert_eq!(ids, vec!["global", "shared", "instance"]);
    assert_eq!(global.entries[0].updated_at, 101);
    assert_eq!(global.entries[1].updated_at, 50);
    assert!(!merge_session_index(&mut global, &source));
    assert_eq!(
        render_session_index(&global),
        "{\"id\":\"global\",\"updated_at\":101}\n{\"id\":\"shared\",\"updated_at\":50}\n{\"id\":\"instance\",\"updated_at\":200}\n"
    );
}

#[test]
fn merge_into_default_reports_no_change() {
    let global = "{\"id\":\"global\",\"updated_at\":100}\n";
    let merged = merge_session_index_into_default(global, "{\"id\":\"instance\",\"updated_at\":200}\n").unwrap();
    assert!(merged.contains("\"id\":\"global\""));
    assert!(merged.contains("\"id\":\"instance\""));
    assert_eq!(merge_session_index_into_default(&merged, "{\"id\":\"instance\",\"updated_at\":200}\n"), None);
    assert_eq!(merge_session_index_into_default(global, "{\"id\":\"global\",\"updated_at\":100}\n"), None);
}

#[test]
fn pruning_drops_shared_chat_projections() {
    let text = "{\"id\":\"source-thread\",\"updated_at\":100}\n{\"id\":\"old-fork\",\"cockpit_shared_chat\":{\"source_session_id\":\"source-thread\"}}\n";
    let index = read_jsonl_entries_by_id(text);
    assert_eq!(materialized_session_ids(&index), strings(&["old-fork"]));
    let (ids, rewritten) = prune_materialized_shared_chat_entries(text, &strings(&["new-fork"]));
    assert_eq!(ids, strings(&["old-fork", "new-fork"]));
    assert_eq!(rewritten.unwrap(), "{\"id\":\"source-thread\",\"updated_at\":100}\n");
    let (ids, rewritten) = prune_materialized_shared_chat_entries("{\"id\":\"a\"}\n", &Vec::new());
    assert!(ids.is_empty());
    assert!(rewritten.is_none());
    assert!(prune_session_index(&index, &Vec::new()).is_none());
}

#[test]
fn string_lists_merge_without_duplicates() {
    let target = strings(&["C:\\global", "C:\\global"]);
    let source = vec![Some(" C:\\instance ".to_string()), None, Some("C:\\global".to_string()), Some("   ".to_string()), Some("C:\\instance".to_string())];
    let merged = merge_string_list(&target, &source);
    assert_eq!(merged, strings(&["C:\\global", "C:\\global", "C:\\instance"]));
    assert_eq!(merge_string_list(&merged, &source), merged);
    assert_eq!(string_items(&vec![Some("a".to_string()), None, Some("b".to_string())]), strings(&["a", "b"]));
}

#[test]
fn global_state_merges_both_lists() {
    let global = Some("{\"project-order\":[\"C:\\\\global\",3],\"electron-saved-workspace-roots\":[\"C:\\\\global\"],\"other\":true}".to_string());
    let source = Some("{\"project-order\":[\"C:\\\\instance\"],\"electron-saved-workspace-roots\":[\" C:\\\\instance \"]}".to_string());
    let merged = merge_global_state(&global, &source);
    let value: serde_json::Value = serde_json::from_str(&merged).unwrap();
    assert!(merged.ends_with("}\n"));
    assert!(merged.contains("\n  \""));
    assert_eq!(value["project-order"], parse(r#"["C:\\global","C:\\instance"]"#));
    assert_eq!(value["electron-saved-workspace-roots"], parse(r#"["C:\\global","C:\\instance"]"#));
    assert_eq!(value["other"], parse("true"));
}

#[test]
fn global_state_treats_unreadable_files_as_empty() {
    let merged = merge_global_state(&Some("[1,2]".to_string()), &None);
    let value: serde_json::Value = serde_json::from_str(&merged).unwrap();
    assert_eq!(value, parse(r#"{"project-order":[],"electron-saved-workspace-roots":[]}"#));
}

#[test]
fn builds_thread_sql() {
    assert_eq!(quote_sqlite_identifier("a\"b"), "\"a\"\"b\"");
    let source = strings(&["id", "rollout_path", "extra", "updated_at"]);
    let target = strings(&["updated_at", "id", "rollout_path"]);
    let common = common_thread_columns(&source, &target);
    assert_eq!(common, strings(&["id", "rollout_path", "updated_at"]));
    assert_eq!(select_threads_sql(&common), "SELECT \"id\", \"rollout_path\", \"updated_at\" FROM threads");
    assert_eq!(insert_thread_sql(&common), "INSERT OR REPLACE INTO threads (\"id\", \"rollout_path\", \"updated_at\") VALUES (?, ?, ?)");
    assert_eq!(column_position(&common, "updated_at"), Some(2));
    assert_eq!(column_position(&common, "thread_source"), None);
}

#[test]
fn decides_which_thread_rows_to_merge() {
    let index = read_jsonl_entries_by_id("{\"id\":\"fork\",\"cockpit_shared_chat\":{}}\n{\"id\":\"t1\"}\n");
    let columns = strings(&["id", "updated_at", "thread_source"]);
    let row = vec![SqlValue::Text("t1".to_string()), SqlValue::Text("200".to_string()), SqlValue::Null];
    assert_eq!(thread_row_merge_candidate(&columns, &row, &index), Some(("t1".to_string(), 200)));
    let row = vec![SqlValue::Integer(12), SqlValue::Null, SqlValue::Text("other".to_string())];
    assert_eq!(thread_row_merge_candidate(&columns, &row, &index), Some(("12".to_string(), 0)));
    let row = vec![SqlValue::Text("fork".to_string()), SqlValue::Integer(1), SqlValue::Null];
    assert_eq!(thread_row_merge_candidate(&columns, &row, &index), None);
    let row = vec![SqlValue::Text("t2".to_string()), SqlValue::Integer(1), SqlValue::Text("cockpit_shared_foreign".to_string())];
    assert_eq!(thread_row_merge_candidate(&columns, &row, &index), None);
    let row = vec![SqlValue::Blob(vec![1]), SqlValue::Integer(1), SqlValue::Null];
    assert_eq!(thread_row_merge_candidate(&columns, &row, &index), None);
    assert_eq!(thread_row_merge_candidate(&strings(&["title"]), &vec![SqlValue::Null], &index), None);
    assert!(target_row_is_current(Some(5), 5));
    assert!(!target_row_is_current(Some(4), 5));
    assert!(!target_row_is_current(None, 0));
}

#[test]
fn reads_sqlite_values() {
    assert_eq!(sqlite_text_value(&SqlValue::Integer(-3)).as_deref(), Some("-3"));
    assert_eq!(sqlite_text_value(&SqlValue::Real("1.5".to_string())).as_deref(), Some("1.5"));
    assert_eq!(sqlite_text_value(&SqlValue::Null), None);
    assert_eq!(sqlite_i64_value(&SqlValue::Text("77".to_string())), Some(77));
    assert_eq!(sqlite_i64_value(&SqlValue::Text("7.7".to_string())), None);
    assert_eq!(sqlite_i64_value(&SqlValue::Real("7".to_string())), None);
}

#[test]
fn rollout_paths_move_to_the_default_home() {
    assert_eq!(rewrite_instance_history_path_to_default("/p", "/d", "/p/sessions/u.jsonl"), "/d/sessions/u.jsonl");
    assert_eq!(rewrite_instance_history_path_to_default("/p", "/d", "/elsewhere/u.jsonl"), "/elsewhere/u.jsonl");
    assert_eq!(rewrite_instance_history_path_to_default("/p", "/d", "/pp/u.jsonl"), "/pp/u.jsonl");
    assert_eq!(rewrite_instance_history_path_to_default("/p", "/d", "/px/a.jsonl"), "/px/a.jsonl");
    assert_eq!(rewrite_instance_history_path_to_default("/p", "/d", "/p/sessions/x.jsonl"), "/d/sessions/x.jsonl");
    assert_eq!(history_path_from("/x", None), "/x");
    assert_eq!(history_path_from("/x", Some("/y".to_string())), "/y");
}

#[test]
fn merged_rows_carry_the_rewritten_rollout_path() {
    let columns = strings(&["id", "rollout_path", "updated_at", "title"]);
    let row = vec![
        SqlValue::Text("u".to_string()),
        SqlValue::Text("/p/sessions/u.jsonl".to_string()),
        SqlValue::Integer(300),
        SqlValue::Text("U".to_string()),
    ];
    let text = rollout_path_text(&columns, &row).unwrap();
    let rewritten = rewrite_instance_history_path_to_default("/p", "/d", &text);
    let inserted = thread_row_to_insert(&columns, row.clone(), Some(rewritten));
    assert_eq!(inserted, vec![
        SqlValue::Text("u".to_string()),
        SqlValue::Text("/d/sessions/u.jsonl".to_string()),
        SqlValue::Integer(300),
        SqlValue::Text("U".to_string()),
    ]);
    let no_path = vec![SqlValue::Text("v".to_string()), SqlValue::Null, SqlValue::Integer(1), SqlValue::Null];
    assert_eq!(rollout_path_text(&columns, &no_path), None);
    assert_eq!(thread_row_to_insert(&columns, no_path.clone(), Some("/d/x".to_string())), no_path);
    let without = strings(&["id", "title"]);
    let plain = vec![SqlValue::Text("w".to_string()), SqlValue::Null];
    assert_eq!(thread_row_to_insert(&without, plain.clone(), Some("/d/x".to_string())), plain);
}

#[test]
fn merged_row_moves_its_rollout_path() {
    let columns = strings(&["id", "rollout_path", "updated_at", "title"]);
    let row = vec![
        SqlValue::Text("u".to_string()),
        SqlValue::Text("/p/sessions/u.jsonl".to_string()),
        SqlValue::Integer(300),
        SqlValue::Text("U".to_string()),
    ];
    assert_eq!(merged_thread_row(&columns, row, "/p", "/d"), vec![
        SqlValue::Text("u".to_string()),
        SqlValue::Text("/d/sessions/u.jsonl".to_string()),
        SqlValue::Integer(300),
        SqlValue::Text("U".to_string()),
    ]);
    let outside = vec![SqlValue::Text("v".to_string()), SqlValue::Text("/px/v.jsonl".to_string()), SqlValue::Null, SqlValue::Null];
    assert_eq!(merged_thread_row(&columns, outside.clone(), "/p", "/d"), outside);
    let blob = vec![SqlValue::Text("w".to_string()), SqlValue::Blob(vec![1]), SqlValue::Null, SqlValue::Null];
    assert_eq!(merged_thread_row(&columns, blob.clone(), "/p", "/d"), blob);
}

#[test]
fn backup_records_and_thread_tables() {
    let record = backup_record("2024-01-01T00:00:00+00:00", "why", "session_index.jsonl", "/p/session_index.jsonl", "/d/session_index.jsonl");
    assert!(record.ends_with("}\n"));
    let value = parse(&record);
    assert_eq!(value["created_at"], "2024-01-01T00:00:00+00:00");
    assert_eq!(value["reason"], "why");
    assert_eq!(value["relative_path"], "session_index.jsonl");
    assert_eq!(value["instance_path"], "/p/session_index.jsonl");
    assert_eq!(value["default_path"], "/d/session_index.jsonl");
    assert!(record.contains("\n  \"created_at\": "));
    assert_eq!(thread_columns_found(Vec::new()), Err("threads table is missing".to_string()));
    assert_eq!(thread_columns_found(strings(&["id"])), Ok(strings(&["id"])));
}
