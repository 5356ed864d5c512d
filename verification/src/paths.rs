//! Path computations, done with `std::path` on the platform the crate is
//! built for. Each std call stands behind a trusted wrapper whose result is
//! named; the functions around them are verified against those names.

use vstd::prelude::*;
use std::path::Path;

verus! {

/// The last component of `path`, as `Path::file_name` gives it.
pub uninterp spec fn path_file_name(path: Seq<char>) -> Option<Seq<char>>;

/// `path` with its last component replaced by (or, where it has none,
/// extended with) `name`, as `Path::with_file_name` gives it.
pub uninterp spec fn path_with_file_name(path: Seq<char>, name: Seq<char>) -> Seq<char>;

/// `path` with its extension replaced by (or extended with) `ext`, as
/// `Path::with_extension` gives it.
pub uninterp spec fn path_with_extension(path: Seq<char>, ext: Seq<char>) -> Seq<char>;

/// The stem of a file name, as the documentation of `Path::file_stem`
/// describes it: the whole name when it holds no `.`, or when its only `.`
/// is its first character; otherwise the part before the last `.`.
pub open spec fn stem_of_file_name(name: Seq<char>) -> Seq<char> {
    match name.index_of_last('.') {
        Some(j) => if j > 0 { name.take(j) } else { name },
        None => name,
    }
}

/// The file stem of `path`: the stem of its file name, if it has one.
pub open spec fn path_file_stem(path: Seq<char>) -> Option<Seq<char>> {
    match path_file_name(path) {
        Some(name) => Some(stem_of_file_name(name)),
        None => None,
    }
}

/// The extension of a file name, as the documentation of `Path::extension`
/// describes it: none when the name holds no `.`, or when its only `.` is its
/// first character; otherwise the part after the last `.`.
pub open spec fn extension_of_file_name(name: Seq<char>) -> Option<Seq<char>> {
    match name.index_of_last('.') {
        Some(j) => if j > 0 { Some(name.skip(j + 1)) } else { None },
        None => None,
    }
}

/// The extension of `path`: that of its file name, if it has one.
pub open spec fn path_extension(path: Seq<char>) -> Option<Seq<char>> {
    match path_file_name(path) {
        Some(name) => extension_of_file_name(name),
        None => None,
    }
}

/// `Path::file_name` on `path`, as a `String`.
///
/// Trusted: the result is the named `path_file_name(path)`. A file name cut
/// out of a `&str` path is valid UTF-8, so the lossy conversion keeps it as
/// it is.
#[verifier::external_body]
pub(crate) fn file_name_of(path: &str) -> (res: Option<String>)
    ensures
        res.deep_view() == path_file_name(path@),
{
    Path::new(path).file_name().map(|s| s.to_string_lossy().into_owned())
}

/// `Path::file_stem` on `path`, as a `String`.
///
/// Trusted: std documents the stem as a part of `Path::file_name` cut by the
/// rule of `stem_of_file_name`; the contract states that. Cut at an ASCII `.`
/// out of a `&str`, the stem is valid UTF-8, so `to_str` always succeeds.
#[verifier::external_body]
pub(crate) fn file_stem_of(path: &str) -> (res: Option<String>)
    ensures
        res.deep_view() == path_file_stem(path@),
{
    Path::new(path).file_stem().and_then(|s| s.to_str()).map(|s| s.to_string())
}

/// `Path::with_file_name` on `path` and `name`, as a `String`.
///
/// Trusted: the result is the named `path_with_file_name(path, name)`; a path
/// joined from `&str` parts is valid UTF-8, so the conversion is lossless.
#[verifier::external_body]
pub(crate) fn with_file_name(path: &str, name: &str) -> (res: String)
    ensures
        res@ == path_with_file_name(path@, name@),
{
    Path::new(path).with_file_name(name).to_string_lossy().into_owned()
}

/// `Path::with_extension` on `path` and `ext`, as a `String`.
///
/// Trusted: the result is the named `path_with_extension(path, ext)`. Recent
/// std panics on an extension that holds a path separator, which `requires`
/// leaves out.
#[verifier::external_body]
pub(crate) fn with_extension(path: &str, ext: &str) -> (res: String)
    requires
        !ext@.contains('/'),
        !ext@.contains('\\'),
    ensures
        res@ == path_with_extension(path@, ext@),
{
    Path::new(path).with_extension(ext).to_string_lossy().into_owned()
}

/// The path of a helper executable shipped next to the program: the file
/// name of `exe_path` (the program's own path) replaced by `name`, with the
/// extension `exe` on Windows.
pub fn sidecar_path(exe_path: &str, name: &str, windows: bool) -> (res: String)
    ensures
        res@ == if windows {
            path_with_extension(path_with_file_name(exe_path@, name@), "exe"@)
        } else {
            path_with_file_name(exe_path@, name@)
        },
{
    let path = with_file_name(exe_path, name);
    if windows {
        let ext = "exe";
        proof {
            reveal_strlit("exe");
        }
        with_extension(path.as_str(), ext)
    } else {
        path
    }
}

} // verus!
