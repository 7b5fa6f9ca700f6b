use vstd::prelude::*;

use crate::text::{chars_of, opt_view, string_of, lowercase, str_eq, to_lowercase};

verus! {

/// What `Path::file_name` gives for a path written with these characters,
/// as text: the final component of the path, or `None` where there is none
/// (the path ends in `..`, or is a root).
pub uninterp spec fn spec_file_name(path: Seq<char>) -> Option<Seq<char>>;

/// Calls `Path::file_name` on `path` and reads the name back as text. Its
/// result is claimed to be a function of the characters of `path` alone,
/// named `spec_file_name`.
#[verifier::external_body]
pub(crate) fn file_name_of(path: &str) -> (name: Option<String>)
    ensures
        opt_view(name) == spec_file_name(path@),
{
    std::path::Path::new(path).file_name().and_then(|n| n.to_str()).map(|n| n.to_string())
}

/// The position of the last `.` in `name`, if any.
pub open spec fn last_dot(name: Seq<char>) -> Option<int>
    decreases name.len(),
{
    if name.len() == 0 {
        None
    } else if name.last() == '.' {
        Some(name.len() - 1)
    } else {
        last_dot(name.drop_last())
    }
}

/// The extension of a file name, as the documentation of `Path::extension`
/// defines it: none if the name holds no `.`, or if its only `.` is the first
/// character; otherwise the part after the last `.`.
pub open spec fn extension_of_name(name: Seq<char>) -> Option<Seq<char>> {
    match last_dot(name) {
        None => None,
        Some(i) => if i == 0 {
            None
        } else {
            Some(name.skip(i + 1))
        },
    }
}

proof fn lemma_last_dot_at(s: Seq<char>, p: int)
    requires
        0 <= p < s.len(),
        s[p] == '.',
        forall|k: int| p < k < s.len() ==> #[trigger] s[k] != '.',
    ensures
        last_dot(s) == Some(p),
    decreases s.len(),
{
    if s.len() - 1 != p {
        let u = s.drop_last();
        assert forall|k: int| p < k < u.len() implies #[trigger] u[k] != '.' by {
            assert(u[k] == s[k]);
        }
        lemma_last_dot_at(u, p);
    }
}

proof fn lemma_no_dot(s: Seq<char>)
    requires
        forall|k: int| 0 <= k < s.len() ==> #[trigger] s[k] != '.',
    ensures
        last_dot(s) is None,
    decreases s.len(),
{
    if s.len() > 0 {
        let u = s.drop_last();
        assert forall|k: int| 0 <= k < u.len() implies #[trigger] u[k] != '.' by {
            assert(u[k] == s[k]);
        }
        lemma_no_dot(u);
    }
}

/// The extension is what follows the last dot: a name made of a nonempty
/// stem, a dot and a dot-free `ext` has the extension `ext`; a name without a
/// dot, or whose only dot is its first character, has none.
pub proof fn lemma_extension_after_last_dot(stem: Seq<char>, ext: Seq<char>)
    requires
        forall|k: int| 0 <= k < ext.len() ==> #[trigger] ext[k] != '.',
    ensures
        stem.len() > 0 ==> extension_of_name(stem + seq!['.'] + ext) == Some(ext),
        extension_of_name(seq!['.'] + ext) is None,
        extension_of_name(ext) is None,
{
    let s = stem + seq!['.'] + ext;
    let p = stem.len() as int;
    assert forall|k: int| p < k < s.len() implies #[trigger] s[k] != '.' by {
        assert(s[k] == ext[k - p - 1]);
    }
    lemma_last_dot_at(s, p);
    assert(s.skip(p + 1) =~= ext);
    let d = seq!['.'] + ext;
    assert forall|k: int| 0 < k < d.len() implies #[trigger] d[k] != '.' by {
        assert(d[k] == ext[k - 1]);
    }
    lemma_last_dot_at(d, 0);
    lemma_no_dot(ext);
}

/// Exactly `txt` and `md` name plain text files and `pdf` names PDF
/// documents; no other lowercased extension is supported.
pub proof fn lemma_supported_extensions(e: Seq<char>)
    ensures
        text_kind_for(e) == Some(TextKind::Plain) <==> (e == "txt"@ || e == "md"@),
        text_kind_for(e) == Some(TextKind::Pdf) <==> e == "pdf"@,
        text_kind_for(e) is None <==> (e != "txt"@ && e != "md"@ && e != "pdf"@),
{
    reveal_strlit("txt");
    reveal_strlit("md");
    reveal_strlit("pdf");
    assert("pdf"@[0] != "txt"@[0] && "pdf"@[0] != "md"@[0]);
}

/// The extension of a path: that of its file name, if it has one.
pub open spec fn path_extension_spec(path: Seq<char>) -> Option<Seq<char>> {
    match spec_file_name(path) {
        None => None,
        Some(name) => extension_of_name(name),
    }
}

/// The extension of a file name, following the rule of `extension_of_name`.
pub fn extension_of_file_name(name: &str) -> (ext: Option<String>)
    ensures
        opt_view(ext) == extension_of_name(name@),
{
    let v = chars_of(name);
    let n = v.len();
    let mut k: usize = n;
    assert(v@.take(n as int) =~= v@);
    while k > 0 && v[k - 1] != '.'
        invariant
            v@ == name@,
            n == v@.len(),
            k <= n,
            last_dot(v@) == last_dot(v@.take(k as int)),
        decreases k,
    {
        assert(v@.take(k as int).drop_last() =~= v@.take(k - 1));
        k -= 1;
    }
    assert(v@.take(n as int) =~= v@);
    if k <= 1 {
        None
    } else {
        Some(string_of(&v, k, n))
    }
}

/// The extension of `path`: that of its file name (`Path::file_name`), by the
/// rule that the documentation of `Path::extension` gives.
pub fn path_extension(path: &str) -> (ext: Option<String>)
    ensures
        opt_view(ext) == path_extension_spec(path@),
{
    match file_name_of(path) {
        None => None,
        Some(name) => extension_of_file_name(name.as_str()),
    }
}

/// The kinds of file whose text can be extracted.
#[derive(Debug, Clone, Copy, PartialEq, Eq)]
pub enum TextKind {
    /// A plain text file (`.txt`, `.md`), read as UTF-8.
    Plain,
    /// A PDF document.
    Pdf,
}

/// The kind of file that a lowercased extension names, if it is supported.
pub open spec fn text_kind_for(ext_lower: Seq<char>) -> Option<TextKind> {
    if ext_lower == "txt"@ || ext_lower == "md"@ {
        Some(TextKind::Plain)
    } else if ext_lower == "pdf"@ {
        Some(TextKind::Pdf)
    } else {
        None
    }
}

/// The kind of file that a lowercased extension names, if it is supported.
pub fn text_kind_for_extension(ext_lower: &str) -> (kind: Option<TextKind>)
    ensures
        kind == text_kind_for(ext_lower@),
{
    if str_eq(ext_lower, "txt") || str_eq(ext_lower, "md") {
        Some(TextKind::Plain)
    } else if str_eq(ext_lower, "pdf") {
        Some(TextKind::Pdf)
    } else {
        None
    }
}

/// The kind of the file at `path`, decided by its extension whatever its case.
pub open spec fn supported_kind_spec(path: Seq<char>) -> Option<TextKind> {
    match path_extension_spec(path) {
        None => None,
        Some(ext) => text_kind_for(lowercase(ext)),
    }
}

/// Decides from its extension, ignoring case, whether the text of the file at
/// `path` can be extracted, and how.
pub fn supported_text_kind(path: &str) -> (kind: Option<TextKind>)
    ensures
        kind == supported_kind_spec(path@),
{
    match path_extension(path) {
        None => None,
        Some(ext) => {
            let lower = to_lowercase(ext.as_str());
            text_kind_for_extension(lower.as_str())
        },
    }
}

/// A character with the Unicode White_Space property, as `char::is_whitespace`
/// tests it (the 25 code points of that property).
pub open spec fn is_white_space(c: char) -> bool {
    ('\u{9}' <= c && c <= '\u{d}') || c == ' ' || c == '\u{85}' || c == '\u{a0}' || c
        == '\u{1680}' || ('\u{2000}' <= c && c <= '\u{200a}') || c == '\u{2028}' || c
        == '\u{2029}' || c == '\u{202f}' || c == '\u{205f}' || c == '\u{3000}'
}

/// The characters of `s` after its leading white space.
pub open spec fn trim_start_of(s: Seq<char>) -> Seq<char>
    decreases s.len(),
{
    if s.len() > 0 && is_white_space(s[0]) {
        trim_start_of(s.skip(1))
    } else {
        s
    }
}

/// The characters of `s` before its trailing white space.
pub open spec fn trim_end_of(s: Seq<char>) -> Seq<char>
    decreases s.len(),
{
    if s.len() > 0 && is_white_space(s.last()) {
        trim_end_of(s.drop_last())
    } else {
        s
    }
}

/// The characters of `s` without its leading and trailing white space.
pub open spec fn trimmed(s: Seq<char>) -> Seq<char> {
    trim_end_of(trim_start_of(s))
}

/// Whether `c` has the Unicode White_Space property.
pub fn is_white_space_char(c: char) -> (w: bool)
    ensures
        w == is_white_space(c),
{
    ('\u{9}' <= c && c <= '\u{d}') || c == ' ' || c == '\u{85}' || c == '\u{a0}' || c
        == '\u{1680}' || ('\u{2000}' <= c && c <= '\u{200a}') || c == '\u{2028}' || c
        == '\u{2029}' || c == '\u{202f}' || c == '\u{205f}' || c == '\u{3000}'
}

/// The position of the first character of `v` that is not white space, or
/// its length.
fn leading_white_space_end(v: &Vec<char>) -> (i: usize)
    ensures
        i <= v@.len(),
        trim_start_of(v@) == v@.skip(i as int),
{
    let n = v.len();
    let mut i: usize = 0;
    assert(v@.skip(0) =~= v@);
    while i < n && is_white_space_char(v[i])
        invariant
            n == v@.len(),
            i <= n,
            trim_start_of(v@) == trim_start_of(v@.skip(i as int)),
        decreases n - i,
    {
        assert(v@.skip(i as int).skip(1) =~= v@.skip(i + 1));
        i += 1;
    }
    i
}

/// The position after the last character of `v[from..]` that is not white
/// space, or `from`.
fn trailing_white_space_start(v: &Vec<char>, from: usize) -> (j: usize)
    requires
        from <= v@.len(),
    ensures
        from <= j <= v@.len(),
        trim_end_of(v@.skip(from as int)) == v@.subrange(from as int, j as int),
{
    let n = v.len();
    let ghost u = v@.skip(from as int);
    let mut j: usize = n;
    assert(u.take((n - from) as int) =~= u);
    while j > from && is_white_space_char(v[j - 1])
        invariant
            n == v@.len(),
            from <= j <= n,
            u == v@.skip(from as int),
            trim_end_of(u) == trim_end_of(u.take((j - from) as int)),
        decreases j,
    {
        assert(u.take((j - from) as int).drop_last() =~= u.take((j - 1 - from) as int));
        j -= 1;
    }
    assert(v@.subrange(from as int, j as int) =~= u.take((j - from) as int));
    j
}

/// Removes the leading and trailing white space of `s`, as `str::trim` does.
pub fn trim(s: &str) -> (t: String)
    ensures
        t@ == trimmed(s@),
{
    let v = chars_of(s);
    let i = leading_white_space_end(&v);
    let j = trailing_white_space_start(&v, i);
    string_of(&v, i, j)
}

/// What is left of `trim_start_of(s)` is a suffix of `s` that does not
/// begin with white space.
proof fn lemma_trim_start(s: Seq<char>)
    ensures
        trim_start_of(s).len() <= s.len(),
        trim_start_of(s) == s.skip(s.len() - trim_start_of(s).len()),
        trim_start_of(s).len() > 0 ==> !is_white_space(trim_start_of(s)[0]),
    decreases s.len(),
{
    if s.len() > 0 && is_white_space(s[0]) {
        lemma_trim_start(s.skip(1));
        assert(s.skip(1).skip(s.skip(1).len() - trim_start_of(s).len()) =~= s.skip(
            s.len() - trim_start_of(s).len(),
        ));
    } else {
        assert(s.skip(0) =~= s);
    }
}

/// What is left of `trim_end_of(s)` is a prefix of `s` that does not end
/// with white space.
proof fn lemma_trim_end(s: Seq<char>)
    ensures
        trim_end_of(s).len() <= s.len(),
        trim_end_of(s) == s.take(trim_end_of(s).len() as int),
        trim_end_of(s).len() > 0 ==> !is_white_space(trim_end_of(s).last()),
    decreases s.len(),
{
    if s.len() > 0 && is_white_space(s.last()) {
        lemma_trim_end(s.drop_last());
        assert(s.drop_last().take(trim_end_of(s).len() as int) =~= s.take(
            trim_end_of(s).len() as int,
        ));
    } else {
        assert(s.take(s.len() as int) =~= s);
    }
}

/// A trimmed text is a contiguous part of the text that, unless empty,
/// neither begins nor ends with white space.
pub proof fn lemma_trimmed_has_no_outer_white_space(s: Seq<char>)
    ensures
        exists|i: int| 0 <= i <= s.len() - trimmed(s).len() && #[trigger] s.subrange(i, i + trimmed(s).len()) == trimmed(s),
        trimmed(s).len() > 0 ==> !is_white_space(trimmed(s)[0]) && !is_white_space(
            trimmed(s).last(),
        ),
{
    let u = trim_start_of(s);
    lemma_trim_start(s);
    lemma_trim_end(u);
    let t = trimmed(s);
    let i = s.len() - u.len();
    assert(s.subrange(i, i + t.len()) =~= t);
    if t.len() > 0 {
        assert(t[0] == u[0]);
    }
}

/// What `String::from_utf8_lossy` gives for these bytes: their UTF-8 decoding,
/// with each invalid sequence replaced by U+FFFD.
pub uninterp spec fn spec_utf8_lossy(bytes: Seq<u8>) -> Seq<char>;

/// Calls `String::from_utf8_lossy`. Its result is claimed to be a function of
/// the bytes alone, named `spec_utf8_lossy`, and, as its documentation states,
/// to be the plain decoding of bytes that are valid UTF-8.
#[verifier::external_body]
pub(crate) fn decode_utf8_lossy(bytes: &[u8]) -> (s: String)
    ensures
        s@ == spec_utf8_lossy(bytes@),
        vstd::utf8::valid_utf8(bytes@) ==> s@ == vstd::utf8::decode_utf8(bytes@),
{
    String::from_utf8_lossy(bytes).to_string()
}

proof fn lemma_trim_start_at(s: Seq<char>, i: int)
    requires
        0 <= i <= s.len(),
        forall|k: int| 0 <= k < i ==> is_white_space(#[trigger] s[k]),
        i == s.len() || !is_white_space(s[i]),
    ensures
        trim_start_of(s) == s.skip(i),
    decreases i,
{
    if i == 0 {
        assert(s.skip(0) =~= s);
    } else {
        let t = s.skip(1);
        assert forall|k: int| 0 <= k < i - 1 implies is_white_space(#[trigger] t[k]) by {
            assert(t[k] == s[k + 1]);
        }
        lemma_trim_start_at(t, i - 1);
        assert(t.skip(i - 1) =~= s.skip(i));
    }
}

proof fn lemma_trim_end_at(t: Seq<char>, m: int)
    requires
        0 <= m <= t.len(),
        forall|k: int| m <= k < t.len() ==> is_white_space(#[trigger] t[k]),
        m == 0 || !is_white_space(t[m - 1]),
    ensures
        trim_end_of(t) == t.take(m),
    decreases t.len(),
{
    if t.len() == m {
        assert(t.take(m) =~= t);
    } else {
        let u = t.drop_last();
        assert(is_white_space(t[t.len() - 1]));
        assert forall|k: int| m <= k < u.len() implies is_white_space(#[trigger] u[k]) by {
            assert(u[k] == t[k]);
        }
        lemma_trim_end_at(u, m);
        assert(u.take(m) =~= t.take(m));
    }
}

/// Trimming removes exactly the outer white space: when `s[i..j]` holds the
/// first and last characters of `s` that are not white space (or `i == j`
/// when `s` is all white space), the trimmed text is `s[i..j]`, with every
/// inner character kept, line breaks included.
pub proof fn lemma_trim_removes_only_outer_white_space(s: Seq<char>, i: int, j: int)
    requires
        0 <= i <= j <= s.len(),
        forall|k: int| 0 <= k < i ==> is_white_space(#[trigger] s[k]),
        forall|k: int| j <= k < s.len() ==> is_white_space(#[trigger] s[k]),
        i < j ==> !is_white_space(s[i]) && !is_white_space(s[j - 1]),
    ensures
        trimmed(s) == s.subrange(i, j),
{
    if i < j {
        lemma_trim_start_at(s, i);
    } else {
        lemma_trim_start_at(s, s.len() as int);
    }
    let u = trim_start_of(s);
    if i < j {
        assert forall|k: int| j - i <= k < u.len() implies is_white_space(#[trigger] u[k]) by {
            assert(u[k] == s[i + k]);
        }
        assert(u[j - i - 1] == s[j - 1]);
        lemma_trim_end_at(u, j - i);
        assert(u.take(j - i) =~= s.subrange(i, j));
    } else {
        lemma_trim_end_at(u, 0);
        assert(u.take(0) =~= s.subrange(i, j));
    }
}

/// A text that neither begins nor ends with white space is kept whole.
pub proof fn lemma_trim_keeps_text_without_outer_white_space(s: Seq<char>)
    requires
        s.len() > 0,
        !is_white_space(s[0]),
        !is_white_space(s.last()),
    ensures
        trimmed(s) == s,
{
    lemma_trim_removes_only_outer_white_space(s, 0, s.len() as int);
    assert(s.subrange(0, s.len() as int) =~= s);
}

/// The extracted text of a document, trimmed, or nothing when it is blank.
pub open spec fn finished_text(raw: Seq<char>) -> Option<Seq<char>> {
    if trimmed(raw).len() == 0 {
        None
    } else {
        Some(trimmed(raw))
    }
}

/// Keeps an already trimmed text unless it is empty.
pub fn keep_nonblank(cleaned: String) -> (text: Option<String>)
    ensures
        cleaned@.len() == 0 ==> text is None,
        cleaned@.len() > 0 ==> (text matches Some(t) && t@ == cleaned@),
{
    if cleaned.unicode_len() == 0 {
        None
    } else {
        Some(cleaned)
    }
}

/// Trims text extracted from a document and drops it when nothing is left.
pub fn finish_extracted_text(raw: &str) -> (text: Option<String>)
    ensures
        opt_view(text) == finished_text(raw@),
{
    keep_nonblank(trim(raw))
}

/// Extracted text is never blank: what is kept has at least one character.
pub proof fn lemma_finished_text_not_empty(raw: Seq<char>)
    ensures
        finished_text(raw) matches Some(t) ==> t.len() > 0,
{
}

/// Whether a file's text can be extracted does not depend on the case of its
/// extension.
pub proof fn lemma_extension_case_ignored(a: Seq<char>, b: Seq<char>)
    requires
        path_extension_spec(a) is Some,
        path_extension_spec(b) is Some,
        lowercase(path_extension_spec(a)->0) == lowercase(
            path_extension_spec(b)->0,
        ),
    ensures
        supported_kind_spec(a) == supported_kind_spec(b),
{
}

/// The text of a plain text file with these bytes: decoded leniently, trimmed,
/// or nothing when it is blank.
pub fn plain_text_from_bytes(bytes: &[u8]) -> (text: Option<String>)
    ensures
        opt_view(text) == finished_text(spec_utf8_lossy(bytes@)),
{
    let raw = decode_utf8_lossy(bytes);
    finish_extracted_text(raw.as_str())
}

} // verus!
