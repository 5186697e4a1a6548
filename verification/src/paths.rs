//! File-system paths as the library sees them: strings, joined and split by
//! std's `Path`, and probed for existence on disk.

use vstd::prelude::*;

verus! {

/// What `Path::join` gives for `dir` adjoined with `name`, as text, on the
/// platform the library runs on.
pub uninterp spec fn joined_path(dir: Seq<char>, name: Seq<char>) -> Seq<char>;

/// What `Path::file_stem` gives for the path `name`.
pub uninterp spec fn path_file_stem(name: Seq<char>) -> Option<Seq<char>>;

/// What `Path::extension` gives for the path `name`.
pub uninterp spec fn path_extension(name: Seq<char>) -> Option<Seq<char>>;

/// What `Path::file_name` gives for the path `path`.
pub uninterp spec fn path_file_name(path: Seq<char>) -> Option<Seq<char>>;

/// The text of an optional string.
pub open spec fn opt_view(o: Option<String>) -> Option<Seq<char>> {
    match o {
        Some(s) => Some(s@),
        None => None,
    }
}

/// A single ordinary file name: not empty, not `.` or `..`, and free of
/// separators and drive prefixes.
pub open spec fn plain_name(s: Seq<char>) -> bool {
    &&& s.len() > 0
    &&& s != seq!['.']
    &&& s != seq!['.', '.']
    &&& !s.contains('/')
    &&& !s.contains('\\')
    &&& !s.contains(':')
}

/// Position of the last `.` in `s`, or -1.
pub open spec fn last_dot(s: Seq<char>) -> int
    decreases s.len(),
{
    if s.len() == 0 {
        -1
    } else if s.last() == '.' {
        s.len() - 1
    } else {
        last_dot(s.drop_last())
    }
}

/// The stem of a plain file name: all of it when it has no `.` past its
/// first character, else what comes before the last `.`.
pub open spec fn plain_stem(s: Seq<char>) -> Seq<char> {
    if last_dot(s) <= 0 {
        s
    } else {
        s.take(last_dot(s))
    }
}

/// The extension of a plain file name: what follows the last `.`, if that
/// `.` is not its first character.
pub open spec fn plain_extension(s: Seq<char>) -> Option<Seq<char>> {
    if last_dot(s) <= 0 {
        None
    } else {
        Some(s.skip(last_dot(s) + 1))
    }
}

/// `Path::join`: `dir` with `name` adjoined.
#[verifier::external_body]
pub(crate) fn path_join(dir: &str, name: &str) -> (r: String)
    ensures
        r@ == joined_path(dir@, name@),
{
    std::path::Path::new(dir).join(name).to_string_lossy().into_owned()
}

/// `Path::exists`: whether something is at `p` on disk right now. What
/// comes back depends on the disk, so nothing is promised of it.
#[verifier::external_body]
pub(crate) fn path_exists(p: &str) -> bool {
    std::path::Path::new(p).exists()
}

/// `Path::file_name` of `path`: its final component, if it has one; a plain
/// file name is its own final component.
#[verifier::external_body]
pub(crate) fn file_name(path: &str) -> (r: Option<String>)
    ensures
        opt_view(r) == path_file_name(path@),
        plain_name(path@) ==> opt_view(r) == Some(path@),
{
    match std::path::Path::new(path).file_name() {
        Some(s) => Some(s.to_string_lossy().into_owned()),
        None => None,
    }
}

/// `Path::file_stem` of `name`; for a plain file name, as std documents it.
#[verifier::external_body]
pub(crate) fn file_stem(name: &str) -> (r: Option<String>)
    ensures
        opt_view(r) == path_file_stem(name@),
        plain_name(name@) ==> opt_view(r) == Some(plain_stem(name@)),
{
    match std::path::Path::new(name).file_stem() {
        Some(s) => Some(s.to_string_lossy().into_owned()),
        None => None,
    }
}

/// `Path::extension` of `name`; for a plain file name, as std documents it.
#[verifier::external_body]
pub(crate) fn file_extension(name: &str) -> (r: Option<String>)
    ensures
        opt_view(r) == path_extension(name@),
        plain_name(name@) ==> opt_view(r) == plain_extension(name@),
{
    match std::path::Path::new(name).extension() {
        Some(s) => Some(s.to_string_lossy().into_owned()),
        None => None,
    }
}

} // verus!
