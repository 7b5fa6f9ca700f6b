use vstd::prelude::*;

use crate::text::{lowercase, to_lowercase};
use crate::types::{IndexScope, SearchResultItem};

verus! {

/// An error report: what failed, a colon, and the underlying error's message.
pub open spec fn error_report(context: Seq<char>, detail: Seq<char>) -> Seq<char> {
    context + ": "@ + detail
}

/// Writes an error report for a failed step of the store.
pub fn error_with_detail(context: &str, detail: &str) -> (msg: String)
    ensures
        msg@ == error_report(context@, detail@),
{
    let mut msg = context.to_string();
    msg.append(": ");
    msg.append(detail);
    msg
}

/// A row of the `index_scopes` table as the database hands it back; the
/// `enabled` column holds an integer.
#[derive(Debug, Clone)]
pub struct ScopeRow {
    pub id: String,
    pub path: String,
    pub enabled: i64,
    pub created_at: String,
}

/// The scope that a stored row stands for: enabled exactly when its
/// `enabled` column is not zero.
pub open spec fn scope_of_row(row: ScopeRow) -> (Seq<char>, Seq<char>, bool, Seq<char>) {
    (row.id@, row.path@, row.enabled != 0, row.created_at@)
}

/// Reads a scope from a stored row.
pub fn scope_from_row(row: ScopeRow) -> (scope: IndexScope)
    ensures
        scope@ == scope_of_row(row),
{
    IndexScope { id: row.id, path: row.path, enabled: row.enabled != 0, created_at: row.created_at }
}

/// The integer stored in the `enabled` column for a scope.
pub fn enabled_column(enabled: bool) -> (v: i64)
    ensures
        v == (if enabled {
            1i64
        } else {
            0i64
        }),
{
    if enabled {
        1
    } else {
        0
    }
}

/// The row that stores a scope.
pub fn row_for_scope(scope: &IndexScope) -> (row: ScopeRow)
    ensures
        row.id@ == scope.id@,
        row.path@ == scope.path@,
        row.enabled == (if scope.enabled {
            1i64
        } else {
            0i64
        }),
        row.created_at@ == scope.created_at@,
{
    ScopeRow {
        id: scope.id.clone(),
        path: scope.path.clone(),
        enabled: enabled_column(scope.enabled),
        created_at: scope.created_at.clone(),
    }
}

/// A scope that is stored and read back is the same scope.
pub proof fn lemma_scope_row_round_trip(scope: IndexScope, row: ScopeRow)
    requires
        row.id@ == scope.id@,
        row.path@ == scope.path@,
        row.enabled == (if scope.enabled {
            1i64
        } else {
            0i64
        }),
        row.created_at@ == scope.created_at@,
    ensures
        scope_of_row(row) == scope@,
{
}

/// The position of the first failed row among `rows[0..n]`, if any.
pub open spec fn first_failure<T>(rows: Seq<Result<T, String>>, n: int) -> Option<int>
    decreases n,
{
    if n <= 0 {
        None
    } else {
        match first_failure(rows, n - 1) {
            Some(i) => Some(i),
            None => if rows[n - 1] is Err {
                Some(n - 1)
            } else {
                None
            },
        }
    }
}

/// Where `first_failure` finds a row, that row failed and all before it were read.
proof fn lemma_first_failure<T>(rows: Seq<Result<T, String>>, n: int)
    requires
        0 <= n <= rows.len(),
    ensures
        first_failure(rows, n) matches Some(i) ==> 0 <= i < n && rows[i] is Err && forall|j: int|
            0 <= j < i ==> rows[j] is Ok,
        first_failure(rows, n) is None ==> forall|j: int| 0 <= j < n ==> rows[j] is Ok,
    decreases n,
{
    if n > 0 {
        lemma_first_failure(rows, n - 1);
    }
}

/// When every row before `k` was read and row `k` failed, row `k` is the
/// first failure.
proof fn lemma_failure_found_at<T>(rows: Seq<Result<T, String>>, k: int)
    requires
        0 <= k < rows.len(),
        rows[k] is Err,
        forall|j: int| 0 <= j < k ==> rows[j] is Ok,
    ensures
        first_failure(rows, rows.len() as int) == Some(k),
{
    lemma_first_failure(rows, rows.len() as int);
    match first_failure(rows, rows.len() as int) {
        Some(i) => {
            if i < k {
                assert(rows[i] is Ok);
            } else if i > k {
                assert(rows[k] is Ok);
            }
        },
        None => {
            assert(rows[k] is Ok);
        },
    }
}

/// The scopes listed from `rows`, or the report of the first row that could
/// not be read.
pub open spec fn listed_scopes(rows: Seq<Result<ScopeRow, String>>) -> Result<
    Seq<(Seq<char>, Seq<char>, bool, Seq<char>)>,
    Seq<char>,
> {
    match first_failure(rows, rows.len() as int) {
        Some(i) => Err(error_report("db_row_parse_failed"@, rows[i]->Err_0@)),
        None => Ok(rows.map_values(|r: Result<ScopeRow, String>| scope_of_row(r->Ok_0))),
    }
}

/// The views of a list of scopes, or of an error report.
pub open spec fn scopes_result_view(r: Result<Vec<IndexScope>, String>) -> Result<
    Seq<(Seq<char>, Seq<char>, bool, Seq<char>)>,
    Seq<char>,
> {
    match r {
        Ok(v) => Ok(v@.map_values(|s: IndexScope| s@)),
        Err(e) => Err(e@),
    }
}

/// Reads the scopes from the rows of a listing query, in order; the first row
/// that failed to load turns the whole listing into its error report.
pub fn scopes_from_rows(rows: Vec<Result<ScopeRow, String>>) -> (r: Result<Vec<IndexScope>, String>)
    ensures
        scopes_result_view(r) == listed_scopes(rows@),
{
    let ghost all = rows@;
    let mut scopes: Vec<IndexScope> = Vec::new();
    proof {
        lemma_first_failure(all, all.len() as int);
    }
    for item in it: rows
        invariant
            it.seq() == all,
            scopes@.len() == it.index(),
            forall|j: int| 0 <= j < it.index() ==> all[j] is Ok,
            forall|j: int|
                0 <= j < it.index() ==> #[trigger] scopes@[j]@ == scope_of_row(all[j]->Ok_0),
            first_failure(all, all.len() as int) matches Some(i) ==> forall|j: int|
                0 <= j < i ==> all[j] is Ok,
            first_failure(all, all.len() as int) matches Some(i) ==> 0 <= i < all.len() && all[i] is Err,
            first_failure(all, all.len() as int) is None ==> forall|j: int|
                0 <= j < all.len() ==> all[j] is Ok,
    {
        match item {
            Ok(row) => {
                scopes.push(scope_from_row(row));
            },
            Err(e) => {
                let ghost k = it.index();
                proof {
                    lemma_failure_found_at(all, k);
                }
                return Err(error_with_detail("db_row_parse_failed", e.as_str()));
            },
        }
    }
    assert(scopes@.map_values(|s: IndexScope| s@) =~= all.map_values(
        |r: Result<ScopeRow, String>| scope_of_row(r->Ok_0),
    ));
    Ok(scopes)
}

/// The `LIKE` pattern that finds scope paths containing the query, whatever
/// its case.
pub open spec fn search_pattern_for(q: Seq<char>) -> Seq<char> {
    "%"@ + lowercase(q) + "%"@
}

/// Wraps an already lowercased query into a `LIKE` pattern that matches any
/// text containing it.
pub fn like_pattern(lowered: &str) -> (pattern: String)
    ensures
        pattern@ == "%"@ + lowered@ + "%"@,
{
    let mut pattern = String::from_str("%");
    pattern.append(lowered);
    pattern.append("%");
    pattern
}

/// Builds the `LIKE` pattern for a scope path search.
pub fn search_pattern(q: &str) -> (pattern: String)
    ensures
        pattern@ == search_pattern_for(q@),
{
    let lower = to_lowercase(q);
    like_pattern(lower.as_str())
}

/// The search pattern is the lowercased query between two `%` wildcards.
pub proof fn lemma_search_pattern_shape(q: Seq<char>)
    ensures
        search_pattern_for(q).len() == lowercase(q).len() + 2,
        search_pattern_for(q)[0] == '%',
        search_pattern_for(q).last() == '%',
        search_pattern_for(q).subrange(1, search_pattern_for(q).len() - 1) == lowercase(q),
{
    reveal_strlit("%");
    let p = search_pattern_for(q);
    assert(p.subrange(1, p.len() - 1) =~= lowercase(q));
}

/// A scope path search ignores the case of the query: queries with the same
/// lowercase form search with the same pattern.
pub proof fn lemma_search_pattern_ignores_case(a: Seq<char>, b: Seq<char>)
    requires
        lowercase(a) == lowercase(b),
    ensures
        search_pattern_for(a) == search_pattern_for(b),
{
}

/// A search result for a scope whose path matched the query.
pub fn scope_search_hit(scope_id: String, path: String) -> (item: SearchResultItem)
    ensures
        item@ == (scope_id@, path@, "scope_path_contains_query"@),
{
    SearchResultItem { scope_id, path, match_reason: "scope_path_contains_query" }
}

/// The search results read from `rows` of (scope id, path), or the report of
/// the first row that could not be read.
pub open spec fn searched_scopes(rows: Seq<Result<(String, String), String>>) -> Result<
    Seq<(Seq<char>, Seq<char>, Seq<char>)>,
    Seq<char>,
> {
    match first_failure(rows, rows.len() as int) {
        Some(i) => Err(error_report("db_search_row_parse_failed"@, rows[i]->Err_0@)),
        None => Ok(
            rows.map_values(
                |r: Result<(String, String), String>|
                    (r->Ok_0.0@, r->Ok_0.1@, "scope_path_contains_query"@),
            ),
        ),
    }
}

/// The views of a list of search results, or of an error report.
pub open spec fn hits_result_view(r: Result<Vec<SearchResultItem>, String>) -> Result<
    Seq<(Seq<char>, Seq<char>, Seq<char>)>,
    Seq<char>,
> {
    match r {
        Ok(v) => Ok(v@.map_values(|s: SearchResultItem| s@)),
        Err(e) => Err(e@),
    }
}

/// Reads the search results from the rows of a scope path search, in order;
/// the first row that failed to load turns the whole search into its error
/// report.
pub fn search_hits_from_rows(rows: Vec<Result<(String, String), String>>) -> (r: Result<
    Vec<SearchResultItem>,
    String,
>)
    ensures
        hits_result_view(r) == searched_scopes(rows@),
{
    let ghost all = rows@;
    let mut hits: Vec<SearchResultItem> = Vec::new();
    proof {
        lemma_first_failure(all, all.len() as int);
    }
    for item in it: rows
        invariant
            it.seq() == all,
            hits@.len() == it.index(),
            forall|j: int| 0 <= j < it.index() ==> all[j] is Ok,
            forall|j: int|
                0 <= j < it.index() ==> #[trigger] hits@[j]@ == (
                    all[j]->Ok_0.0@,
                    all[j]->Ok_0.1@,
                    "scope_path_contains_query"@,
                ),
            first_failure(all, all.len() as int) matches Some(i) ==> forall|j: int|
                0 <= j < i ==> all[j] is Ok,
            first_failure(all, all.len() as int) matches Some(i) ==> 0 <= i < all.len() && all[i] is Err,
            first_failure(all, all.len() as int) is None ==> forall|j: int|
                0 <= j < all.len() ==> all[j] is Ok,
    {
        match item {
            Ok(pair) => {
                let (id, path) = pair;
                hits.push(scope_search_hit(id, path));
            },
            Err(e) => {
                let ghost k = it.index();
                proof {
                    lemma_failure_found_at(all, k);
                }
                return Err(error_with_detail("db_search_row_parse_failed", e.as_str()));
            },
        }
    }
    assert(hits@.map_values(|s: SearchResultItem| s@) =~= all.map_values(
        |r: Result<(String, String), String>|
            (r->Ok_0.0@, r->Ok_0.1@, "scope_path_contains_query"@),
    ));
    Ok(hits)
}

/// A search keeps every row's scope id and stored path exactly as read, in
/// order, each with the reason "scope_path_contains_query"; if some row could
/// not be read, the search fails with "db_search_row_parse_failed: " and the
/// error of the first such row.
pub proof fn lemma_search_results_carry_rows(rows: Seq<Result<(String, String), String>>)
    ensures
        (forall|i: int| 0 <= i < rows.len() ==> rows[i] is Ok) ==> (searched_scopes(rows) matches Ok(
            h,
        ) && h.len() == rows.len() && forall|i: int|
            0 <= i < rows.len() ==> #[trigger] h[i] == (
                rows[i]->Ok_0.0@,
                rows[i]->Ok_0.1@,
                "scope_path_contains_query"@,
            )),
        forall|k: int|
            0 <= k < rows.len() && #[trigger] rows[k] is Err && (forall|j: int|
                0 <= j < k ==> rows[j] is Ok) ==> searched_scopes(rows) == Err::<
                Seq<(Seq<char>, Seq<char>, Seq<char>)>,
                Seq<char>,
            >("db_search_row_parse_failed: "@ + rows[k]->Err_0@),
{
    lemma_first_failure(rows, rows.len() as int);
    assert forall|k: int|
        0 <= k < rows.len() && #[trigger] rows[k] is Err && (forall|j: int|
            0 <= j < k ==> rows[j] is Ok) implies searched_scopes(rows) == Err::<
        Seq<(Seq<char>, Seq<char>, Seq<char>)>,
        Seq<char>,
    >("db_search_row_parse_failed: "@ + rows[k]->Err_0@) by {
        lemma_failure_found_at(rows, k);
        reveal_strlit("db_search_row_parse_failed");
        reveal_strlit(": ");
        reveal_strlit("db_search_row_parse_failed: ");
        assert("db_search_row_parse_failed"@ + ": "@ =~= "db_search_row_parse_failed: "@);
        assert(error_report("db_search_row_parse_failed"@, rows[k]->Err_0@) =~= "db_search_row_parse_failed: "@
            + rows[k]->Err_0@);
    }
}

/// A listing keeps every row's id, path and creation time exactly as read,
/// in order, and a scope is enabled exactly when its stored flag is not zero;
/// if some row could not be read, the listing fails with
/// "db_row_parse_failed: " and the error of the first such row.
pub proof fn lemma_listing_carries_rows(rows: Seq<Result<ScopeRow, String>>)
    ensures
        (forall|i: int| 0 <= i < rows.len() ==> rows[i] is Ok) ==> (listed_scopes(rows) matches Ok(
            l,
        ) && l.len() == rows.len() && forall|i: int|
            0 <= i < rows.len() ==> #[trigger] l[i] == (
                rows[i]->Ok_0.id@,
                rows[i]->Ok_0.path@,
                rows[i]->Ok_0.enabled != 0,
                rows[i]->Ok_0.created_at@,
            )),
        forall|k: int|
            0 <= k < rows.len() && #[trigger] rows[k] is Err && (forall|j: int|
                0 <= j < k ==> rows[j] is Ok) ==> listed_scopes(rows) == Err::<
                Seq<(Seq<char>, Seq<char>, bool, Seq<char>)>,
                Seq<char>,
            >("db_row_parse_failed: "@ + rows[k]->Err_0@),
{
    lemma_first_failure(rows, rows.len() as int);
    assert forall|k: int|
        0 <= k < rows.len() && #[trigger] rows[k] is Err && (forall|j: int|
            0 <= j < k ==> rows[j] is Ok) implies listed_scopes(rows) == Err::<
        Seq<(Seq<char>, Seq<char>, bool, Seq<char>)>,
        Seq<char>,
    >("db_row_parse_failed: "@ + rows[k]->Err_0@) by {
        lemma_failure_found_at(rows, k);
        reveal_strlit("db_row_parse_failed");
        reveal_strlit(": ");
        reveal_strlit("db_row_parse_failed: ");
        assert(error_report("db_row_parse_failed"@, rows[k]->Err_0@) =~= "db_row_parse_failed: "@
            + rows[k]->Err_0@);
    }
}

/// Whether a deletion removed a scope: exactly when it changed some row.
pub fn deleted_any(changed: usize) -> (deleted: bool)
    ensures
        deleted == (changed > 0),
{
    changed > 0
}

} // verus!
