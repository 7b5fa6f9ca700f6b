use core_daemon::index_store::{
    deleted_any, enabled_column, error_with_detail, row_for_scope, scope_from_row,
    scope_search_hit, scopes_from_rows, search_hits_from_rows, search_pattern, ScopeRow,
};
use core_daemon::keyword_index::{stored_text_or_empty, title_for_path};
use core_daemon::types::IndexScope;

fn row(id: &str, enabled: i64) -> ScopeRow {
    ScopeRow {
        id: id.to_string(),
        path: format!("/data/{}", id),
        enabled,
        created_at: "2026-02-28T00:00:00Z".to_string(),
    }
}

#[test]
fn enabled_flag_round_trips() {
    for enabled in [true, false] {
        let scope = IndexScope {
            id: "s1".to_string(),
            path: "C:/Users/me/Documents".to_string(),
            enabled,
            created_at: "t".to_string(),
        };
        let back = scope_from_row(row_for_scope(&scope));
        assert_eq!(back.id, scope.id);
        assert_eq!(back.path, scope.path);
        assert_eq!(back.enabled, enabled);
        assert_eq!(back.created_at, scope.created_at);
    }
    assert_eq!(enabled_column(true), 1);
    assert_eq!(enabled_column(false), 0);
    assert!(scope_from_row(row("a", 7)).enabled);
    assert!(scope_from_row(row("a", -1)).enabled);
    assert!(!scope_from_row(row("a", 0)).enabled);
}

#[test]
fn listing_keeps_order_or_reports_first_failure() {
    let ok = scopes_from_rows(vec![Ok(row("a", 1)), Ok(row("b", 0))]).unwrap();
    assert_eq!(ok.len(), 2);
    assert_eq!(ok[0].id, "a");
    assert!(ok[0].enabled);
    assert_eq!(ok[1].path, "/data/b");
    assert!(!ok[1].enabled);

    let err = scopes_from_rows(vec![
        Ok(row("a", 1)),
        Err("bad column".to_string()),
        Err("later".to_string()),
    ])
    .unwrap_err();
    assert_eq!(err, "db_row_parse_failed: bad column");
    assert!(scopes_from_rows(vec![]).unwrap().is_empty());
}

#[test]
fn search_results_and_pattern() {
    assert_eq!(search_pattern("Notes"), "%notes%");
    assert_eq!(search_pattern(""), "%%");
    let hits = search_hits_from_rows(vec![
        Ok(("s1".to_string(), "/a/notes".to_string())),
        Ok(("s2".to_string(), "/b/Notes".to_string())),
    ])
    .unwrap();
    assert_eq!(hits.len(), 2);
    assert_eq!(hits[1].scope_id, "s2");
    assert_eq!(hits[0].match_reason, "scope_path_contains_query");
    let err = search_hits_from_rows(vec![Err("x".to_string())]).unwrap_err();
    assert_eq!(err, "db_search_row_parse_failed: x");
    assert_eq!(scope_search_hit("i".to_string(), "p".to_string()).path, "p");
}

#[test]
fn deletions_and_errors() {
    assert!(deleted_any(1));
    assert!(deleted_any(3));
    assert!(!deleted_any(0));
    assert_eq!(error_with_detail("db_open_failed", "no such file"), "db_open_failed: no such file");
}

#[test]
fn indexed_titles() {
    assert_eq!(title_for_path("/home/u/notes.md"), "notes.md");
    assert_eq!(title_for_path("C:/docs/a.pdf"), "a.pdf");
    assert_eq!(title_for_path("/"), "/");
    assert_eq!(title_for_path("/a/.."), "/a/..");
    assert_eq!(stored_text_or_empty(Some("x".to_string())), "x");
    assert_eq!(stored_text_or_empty(None), "");
}
