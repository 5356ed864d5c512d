//! File metadata shown to the user before a conversion: the file's name, the
//! MIME types guessed from its extension, and, where the file could be read,
//! its size and its creation and modification times.

use vstd::prelude::*;
use crate::paths::{file_name_of, path_extension, path_file_name};

verus! {

/// The MIME types (in `type/subtype` form) that the static table of
/// `mime_guess` lists for the non-empty extension `ext` (looked up without
/// regard to case), in the order of the table; empty where it has none.
pub uninterp spec fn mime_types_for_extension(ext: Seq<char>) -> Seq<Seq<char>>;

/// The MIME types guessed for `path`: none where it has no extension or an
/// empty one, else those of the table for its extension.
pub open spec fn guessed_mime_types(path: Seq<char>) -> Seq<Seq<char>> {
    match path_extension(path) {
        Some(ext) => if ext.len() == 0 {
            Seq::empty()
        } else {
            mime_types_for_extension(ext)
        },
        None => Seq::empty(),
    }
}

/// `mime_guess::from_path(path).iter_raw()`, collected.
///
/// Trusted: per the source of `mime_guess` 2.0.5, `from_path` takes
/// `Path::extension` of `path` (always valid UTF-8 for a `&str` path), gives
/// an empty guess where there is none or it is empty, and otherwise looks it
/// up in a static table (no disk access): the named
/// `mime_types_for_extension`.
#[verifier::external_body]
pub(crate) fn guess_mime_types(path: &str) -> (res: Vec<String>)
    ensures
        res.deep_view() == match path_extension(path@) {
            Some(ext) => if ext.len() == 0 {
                Seq::empty()
            } else {
                mime_types_for_extension(ext)
            },
            None => Seq::empty(),
        },
{
    mime_guess::from_path(path).iter_raw().map(String::from).collect()
}

/// The guessed MIME types depend on the path's extension alone: paths with
/// the same extension get the same types, those of the table for a non-empty
/// extension, and none where there is no extension or an empty one.
pub proof fn lemma_mime_types_follow_extension(p: Seq<char>, q: Seq<char>)
    ensures
        path_extension(p) == path_extension(q) ==> guessed_mime_types(p) == guessed_mime_types(q),
        path_extension(p) matches Some(ext) ==> (ext.len() > 0 ==> guessed_mime_types(p)
            == mime_types_for_extension(ext)),
        (path_extension(p) is None || path_extension(p).unwrap().len() == 0)
            ==> guessed_mime_types(p).len() == 0,
{
}

/// What the file system tells of a file: its length in bytes and, where the
/// platform records them, its creation and modification times as Unix
/// timestamps in seconds.
#[derive(Clone, Copy, Debug, PartialEq, Eq)]
pub struct FileStats {
    pub len: u64,
    pub created: Option<i64>,
    pub modified: Option<i64>,
}

/// File metadata. Times are Unix timestamps in seconds.
#[derive(Debug)]
pub struct Metadata {
    pub name: Option<String>,
    pub mimes: Vec<String>,
    pub len: Option<u64>,
    pub created: Option<i64>,
    pub modified: Option<i64>,
}

/// The metadata of the file at `path`, given what the file system reported
/// of it (`None` where it could not be read): the name and the MIME types
/// come from the path alone, the rest from `stats`.
pub fn metadata(path: &str, stats: Option<FileStats>) -> (res: Metadata)
    ensures
        res.name.deep_view() == path_file_name(path@),
        res.mimes.deep_view() == guessed_mime_types(path@),
        path_extension(path@) matches Some(ext) ==> (ext.len() > 0 ==> res.mimes.deep_view()
            == mime_types_for_extension(ext)),
        (path_extension(path@) is None || path_extension(path@).unwrap().len() == 0)
            ==> res.mimes@.len() == 0,
        res.len == (match stats {
            Some(s) => Some(s.len),
            None => None,
        }),
        res.created == (match stats {
            Some(s) => s.created,
            None => None,
        }),
        res.modified == (match stats {
            Some(s) => s.modified,
            None => None,
        }),
{
    let name = file_name_of(path);
    let mimes = guess_mime_types(path);
    let mut len = None;
    let mut created = None;
    let mut modified = None;
    if let Some(s) = stats {
        len = Some(s.len);
        created = s.created;
        modified = s.modified;
    }
    Metadata { name, mimes, len, created, modified }
}

} // verus!
