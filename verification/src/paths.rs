//! File-system path questions answered by `std::path`, on paths held as text.
use vstd::prelude::*;

verus! {

/// The result of `Path::new(a) == Path::new(b)`: equality of the paths'
/// components.
pub uninterp spec fn same_path(a: Seq<char>, b: Seq<char>) -> bool;

/// `Path::eq` on two textual paths. The contract names the result
/// `same_path`, and states that a path is the same as itself (std compares
/// the parsed components, so the same text gives the same components); the
/// parsing itself is not restated.
#[verifier::external_body]
pub(crate) fn paths_equal(a: &str, b: &str) -> (r: bool)
    ensures
        r == same_path(a@, b@),
        a@ == b@ ==> r,
{
    std::path::Path::new(a) == std::path::Path::new(b)
}

/// The result of `Path::file_name` on a textual path: its last normal
/// component, or `None` when it ends in `..` or has no component.
pub uninterp spec fn file_name_of(path: Seq<char>) -> Option<Seq<char>>;

/// `Path::file_name`, read back as text. The contract names the result
/// `file_name_of`; std's component parsing is not restated. A component of a
/// path given as text is valid UTF-8, so the conversion back never fails.
#[verifier::external_body]
pub(crate) fn path_file_name(path: &str) -> (r: Option<String>)
    ensures
        r.is_some() == file_name_of(path@).is_some(),
        r matches Some(v) ==> file_name_of(path@) == Some(v@),
{
    match std::path::Path::new(path).file_name() {
        Some(name) => Some(name.to_string_lossy().into_owned()),
        None => None,
    }
}

/// Index of the last `.` in `name`, or -1 when there is none.
pub open spec fn last_dot(name: Seq<char>) -> int
    decreases name.len(),
{
    if name.len() == 0 {
        -1
    } else if name.last() == '.' {
        name.len() - 1
    } else {
        last_dot(name.drop_last())
    }
}

/// What `Path::extension` gives, as std documents it: none without a file
/// name, none when the file name has no `.` or starts with its only `.`,
/// else the part of the file name after its last `.`.
pub open spec fn extension_of(path: Seq<char>) -> Option<Seq<char>> {
    match file_name_of(path) {
        None => None,
        Some(name) => if last_dot(name) <= 0 {
            None
        } else {
            Some(name.skip(last_dot(name) + 1))
        },
    }
}

/// `Path::extension`, read back as text. The contract states std's
/// documented rule over the file name; the file name of a path given as text
/// is valid UTF-8, and so is each side of an ASCII `.`, so the conversion back
/// never fails.
#[verifier::external_body]
pub(crate) fn path_extension(path: &str) -> (r: Option<String>)
    ensures
        r.is_some() == extension_of(path@).is_some(),
        r matches Some(v) ==> extension_of(path@) == Some(v@),
{
    match std::path::Path::new(path).extension() {
        Some(ext) => Some(ext.to_string_lossy().into_owned()),
        None => None,
    }
}

/// What `Path::file_stem` gives, as std documents it: none without a file
/// name, the whole file name when it has no `.` or starts with its only `.`,
/// else the part of the file name before its last `.`.
pub open spec fn file_stem_of(path: Seq<char>) -> Option<Seq<char>> {
    match file_name_of(path) {
        None => None,
        Some(name) => Some(
            if last_dot(name) <= 0 {
                name
            } else {
                name.take(last_dot(name))
            },
        ),
    }
}

/// `Path::file_stem`, read back as text. The contract states std's
/// documented rule over the file name; as for the extension, the conversion
/// back never fails.
#[verifier::external_body]
pub(crate) fn path_file_stem(path: &str) -> (r: Option<String>)
    ensures
        r.is_some() == file_stem_of(path@).is_some(),
        r matches Some(v) ==> file_stem_of(path@) == Some(v@),
{
    match std::path::Path::new(path).file_stem() {
        Some(stem) => Some(stem.to_string_lossy().into_owned()),
        None => None,
    }
}

/// The result of `Path::join` on two textual paths.
pub uninterp spec fn joined_path(dir: Seq<char>, name: Seq<char>) -> Seq<char>;

/// `Path::join`, read back as text: `name` adjoined to `dir`, with a
/// separator between them when needed (an absolute `name` replaces `dir`).
/// The contract names the result `joined_path`; std's rule is not restated.
#[verifier::external_body]
pub(crate) fn path_join(dir: &str, name: &str) -> (r: String)
    ensures
        r@ == joined_path(dir@, name@),
{
    std::path::Path::new(dir).join(name).to_string_lossy().into_owned()
}

} // verus!
