use core_daemon::classify_tool_preview;
use core_daemon::classify_normalized;

#[test]
fn classifies_open_as_tier_1() {
    let preview = classify_tool_preview("Open downloads");
    assert_eq!(preview.name, "open_app_or_file");
    assert_eq!(preview.risk_tier, 1);
    assert!(!preview.requires_confirmation);
}

#[test]
fn classifies_delete_as_tier_2() {
    let preview = classify_tool_preview("Delete old files");
    assert_eq!(preview.name, "delete_file");
    assert_eq!(preview.risk_tier, 2);
    assert!(preview.requires_confirmation);
}

#[test]
fn classifies_remove_as_tier_2() {
    let preview = classify_tool_preview("remove temp");
    assert_eq!(preview.name, "delete_file");
    assert_eq!(preview.risk_tier, 2);
    assert!(preview.requires_confirmation);
}

#[test]
fn classifies_default_as_read_only_search() {
    let preview = classify_tool_preview("Find project notes");
    assert_eq!(preview.name, "search_files_semantic");
    assert_eq!(preview.risk_tier, 0);
    assert!(!preview.requires_confirmation);
}

#[test]
fn classification_is_case_insensitive() {
    let preview = classify_tool_preview("OPEN THE DOCUMENTS");
    assert_eq!(preview.name, "open_app_or_file");
}

#[test]
fn open_takes_precedence_when_multiple_keywords_exist() {
    let preview = classify_tool_preview("open and delete this file");
    assert_eq!(preview.name, "open_app_or_file");
    assert_eq!(preview.risk_tier, 1);
}

#[test]
fn previews_carry_their_notes() {
    assert_eq!(
        classify_tool_preview("open x").note,
        "Low-risk open action. Execution engine stub only in Sprint 1."
    );
    assert_eq!(
        classify_tool_preview("delete x").note,
        "High-risk action. Confirmation required (policy engine in later sprint)."
    );
    assert_eq!(
        classify_tool_preview("x").note,
        "Read-only search action. Stub routing for now."
    );
}

#[test]
fn keywords_match_inside_words_and_mixed_case() {
    assert_eq!(classify_tool_preview("REOPENED tickets").name, "open_app_or_file");
    assert_eq!(classify_tool_preview("ReMoVe").name, "delete_file");
    assert_eq!(classify_tool_preview("").name, "search_files_semantic");
    assert_eq!(classify_tool_preview("ope n").name, "search_files_semantic");
}

#[test]
fn normalized_classification_is_case_sensitive() {
    assert_eq!(classify_normalized("OPEN").name, "search_files_semantic");
    assert_eq!(classify_normalized("open").name, "open_app_or_file");
    assert_eq!(classify_normalized("remove it").risk_tier, 2);
}

#[test]
fn confirmation_only_for_tier_2() {
    for m in ["open", "delete", "remove", "find", "Open and REMOVE", ""] {
        let p = classify_tool_preview(m);
        assert!(p.risk_tier <= 2);
        assert_eq!(p.requires_confirmation, p.risk_tier == 2);
    }
}

#[test]
fn ascii_case_variants_classify_alike() {
    for m in ["Open Downloads", "please DELETE it", "Remove", "find NOTES", "x"] {
        let a = classify_tool_preview(m);
        let b = classify_tool_preview(&m.to_ascii_uppercase());
        let c = classify_tool_preview(&m.to_ascii_lowercase());
        assert_eq!(a.name, b.name);
        assert_eq!(a.name, c.name);
        assert_eq!(a.risk_tier, b.risk_tier);
        assert_eq!(a.note, c.note);
    }
}
