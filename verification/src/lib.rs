pub mod text;
pub mod types;
pub mod speech;
pub mod events;
pub mod daemon;
pub mod extractor;
pub mod index_store;
pub mod keyword_index;

use vstd::prelude::*;

use text::{
    ascii_lowercase, ascii_uppercase, contains_str, lowercase, seq_contains, to_lowercase,
};
use types::ToolPreview;

verus! {

/// The preview that a lowercased chat message routes to, as
/// (tool name, risk tier, whether confirmation is required, note).
/// A message that mentions "open" routes to the open tool, even when it also
/// mentions deleting; otherwise one that mentions "delete" or "remove" routes
/// to the deletion tool; anything else routes to the read-only search.
pub open spec fn preview_for(normalized: Seq<char>) -> (Seq<char>, u8, bool, Seq<char>) {
    if seq_contains(normalized, "open"@) {
        (
            "open_app_or_file"@,
            1u8,
            false,
            "Low-risk open action. Execution engine stub only in Sprint 1."@,
        )
    } else if seq_contains(normalized, "delete"@) || seq_contains(normalized, "remove"@) {
        (
            "delete_file"@,
            2u8,
            true,
            "High-risk action. Confirmation required (policy engine in later sprint)."@,
        )
    } else {
        ("search_files_semantic"@, 0u8, false, "Read-only search action. Stub routing for now."@)
    }
}

/// The preview that a chat message routes to: that of its lowercase form.
pub open spec fn preview_for_message(message: Seq<char>) -> (Seq<char>, u8, bool, Seq<char>) {
    preview_for(lowercase(message))
}

/// Routes an already lowercased message to a tool preview.
pub fn classify_normalized(normalized: &str) -> (preview: ToolPreview)
    ensures
        preview@ == preview_for(normalized@),
{
    if contains_str(normalized, "open") {
        ToolPreview {
            name: "open_app_or_file".to_string(),
            risk_tier: 1,
            requires_confirmation: false,
            note: "Low-risk open action. Execution engine stub only in Sprint 1.".to_string(),
        }
    } else if contains_str(normalized, "delete") || contains_str(normalized, "remove") {
        ToolPreview {
            name: "delete_file".to_string(),
            risk_tier: 2,
            requires_confirmation: true,
            note: "High-risk action. Confirmation required (policy engine in later sprint).".to_string(),
        }
    } else {
        ToolPreview {
            name: "search_files_semantic".to_string(),
            risk_tier: 0,
            requires_confirmation: false,
            note: "Read-only search action. Stub routing for now.".to_string(),
        }
    }
}

/// Routes a chat message to a tool preview, ignoring letter case.
pub fn classify_tool_preview(message: &str) -> (preview: ToolPreview)
    ensures
        preview@ == preview_for_message(message@),
{
    let normalized = to_lowercase(message);
    classify_normalized(normalized.as_str())
}

/// Classification ignores letter case: two messages with the same lowercase
/// form route to the same preview.
pub proof fn lemma_classification_ignores_case(a: Seq<char>, b: Seq<char>)
    requires
        lowercase(a) == lowercase(b),
    ensures
        preview_for_message(a) == preview_for_message(b),
{
}

/// A message whose lowercase form mentions "open" routes to the open tool at
/// risk tier 1, whatever else it mentions.
pub proof fn lemma_open_takes_precedence(normalized: Seq<char>)
    requires
        seq_contains(normalized, "open"@),
    ensures
        preview_for(normalized).0 == "open_app_or_file"@,
        preview_for(normalized).1 == 1,
        !preview_for(normalized).2,
{
}

/// Every preview has a risk tier of at most 2, and it asks for confirmation
/// exactly when its risk tier is 2.
pub proof fn lemma_confirmation_exactly_for_high_risk(normalized: Seq<char>)
    ensures
        preview_for(normalized).1 <= 2,
        preview_for(normalized).2 <==> preview_for(normalized).1 == 2,
{
}

/// ASCII case does not matter: an ASCII message, its ASCII uppercase form
/// and its ASCII lowercase form all route to the same preview.
pub proof fn lemma_ascii_case_variants_classify_alike(m: Seq<char>)
    requires
        vstd::utf8::is_ascii_chars(m),
    ensures
        preview_for_message(ascii_uppercase(m)) == preview_for_message(m),
        preview_for_message(ascii_lowercase(m)) == preview_for_message(m),
{
    assert forall|i: int| 0 <= i < m.len() implies '\0' <= #[trigger] ascii_uppercase(m)[i]
        <= '\u{7f}' && '\0' <= ascii_lowercase(m)[i] <= '\u{7f}' by {
        let c = m[i];
        assert('\0' <= c <= '\u{7f}');
    }
    assert forall|i: int| 0 <= i < m.len() implies #[trigger] ascii_lowercase(ascii_uppercase(m))[i]
        == ascii_lowercase(m)[i] && ascii_lowercase(ascii_lowercase(m))[i] == ascii_lowercase(m)[i] by {
        let c = m[i];
        assert('\0' <= c <= '\u{7f}');
    }
    assert(ascii_lowercase(ascii_uppercase(m)) =~= ascii_lowercase(m));
    assert(ascii_lowercase(ascii_lowercase(m)) =~= ascii_lowercase(m));
}

/// How a lowercased message routes, by the keywords it contains anywhere:
/// "open" goes to the open tool at tier 1; otherwise "delete" or "remove"
/// goes to the deletion tool at tier 2 with confirmation; a message with none
/// of them goes to the read-only search at tier 0.
pub proof fn lemma_routing_by_keywords(n: Seq<char>)
    ensures
        seq_contains(n, "open"@) ==> preview_for(n) == (
            "open_app_or_file"@,
            1u8,
            false,
            "Low-risk open action. Execution engine stub only in Sprint 1."@,
        ),
        !seq_contains(n, "open"@) && (seq_contains(n, "delete"@) || seq_contains(n, "remove"@))
            ==> preview_for(n) == (
            "delete_file"@,
            2u8,
            true,
            "High-risk action. Confirmation required (policy engine in later sprint)."@,
        ),
        !seq_contains(n, "open"@) && !seq_contains(n, "delete"@) && !seq_contains(n, "remove"@)
            ==> preview_for(n) == (
            "search_files_semantic"@,
            0u8,
            false,
            "Read-only search action. Stub routing for now."@,
        ),
{
}

/// A keyword placed anywhere in a message is found: a message made of any
/// text, the word "delete" and any text routes to deletion unless it also
/// mentions "open".
pub proof fn lemma_delete_anywhere_routes_to_deletion(before: Seq<char>, after: Seq<char>)
    requires
        !seq_contains(before + "delete"@ + after, "open"@),
    ensures
        preview_for(before + "delete"@ + after).0 == "delete_file"@,
        preview_for(before + "delete"@ + after).1 == 2,
        preview_for(before + "delete"@ + after).2,
{
    text::lemma_contains_occurrence(before, "delete"@, after);
}

} // verus!
