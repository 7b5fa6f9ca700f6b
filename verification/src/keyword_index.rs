use vstd::prelude::*;

use crate::extractor::{file_name_of, spec_file_name};

verus! {

/// The title under which a document at `path` is indexed: its file name,
/// or the whole path when it has none.
pub open spec fn title_for(path: Seq<char>) -> Seq<char> {
    match spec_file_name(path) {
        Some(name) => name,
        None => path,
    }
}

/// A document is titled by its file name when its path has one, and by the
/// whole path otherwise.
pub proof fn lemma_title_is_file_name(path: Seq<char>)
    ensures
        spec_file_name(path) matches Some(n) ==> title_for(path) == n,
        spec_file_name(path) is None ==> title_for(path) == path,
{
}

/// Chooses the title from the file name of `path`, if it has one.
pub fn title_from_file_name(name: Option<String>, path: &str) -> (title: String)
    ensures
        name matches Some(n) ==> title@ == n@,
        name is None ==> title@ == path@,
{
    match name {
        Some(n) => n,
        None => path.to_string(),
    }
}

/// Chooses the indexed title of the document at `path`.
pub fn title_for_path(path: &str) -> (title: String)
    ensures
        title@ == title_for(path@),
{
    title_from_file_name(file_name_of(path), path)
}

/// The text of a stored field of a hit, or the empty text when the document
/// does not hold it.
pub fn stored_text_or_empty(value: Option<String>) -> (text: String)
    ensures
        value matches Some(v) ==> text@ == v@,
        value is None ==> text@ == Seq::<char>::empty(),
{
    match value {
        Some(v) => v,
        None => String::new(),
    }
}

} // verus!
