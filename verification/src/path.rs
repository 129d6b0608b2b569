//! File-system paths as text. The library never touches the file system: it
//! only puts paths together and takes them apart, with std's own rules for
//! doing so, which are those of the platform that the crate is built for.

use vstd::prelude::*;

verus! {

/// The path that `std::path::Path::join` makes of a base and a component.
pub uninterp spec fn joined(base: Seq<char>, part: Seq<char>) -> Seq<char>;

/// Adjoins `part` to `base` with `std::path::Path::join`. Both are UTF-8
/// text, so the joined path is too and is handed back as text; what it is
/// goes by the name `joined`.
#[verifier::external_body]
pub(crate) fn join(base: &str, part: &str) -> (path: String)
    ensures
        path@ == joined(base@, part@),
{
    std::path::Path::new(base).join(part).to_string_lossy().into_owned()
}

/// The final component of a path as `std::path::Path::file_name` gives it.
pub uninterp spec fn file_name_of(path: Seq<char>) -> Option<Seq<char>>;

/// The final component of `path` with `std::path::Path::file_name`: none
/// where the path ends in `..` or is a root. The component of a UTF-8 path is
/// UTF-8 and is handed back as text; what it is goes by the name
/// `file_name_of`.
#[verifier::external_body]
pub(crate) fn file_name(path: &str) -> (name: Option<String>)
    ensures
        (match name {
            Some(text) => file_name_of(path@) == Some(text@),
            None => file_name_of(path@).is_none(),
        }),
{
    std::path::Path::new(path).file_name().map(|name| name.to_string_lossy().into_owned())
}

/// The stem of the final component as `std::path::Path::file_stem` gives it.
pub uninterp spec fn file_stem_of(path: Seq<char>) -> Option<Seq<char>>;

/// The final component of `path` without its extension, with
/// `std::path::Path::file_stem`: none where the path has no file name. What
/// it is goes by the name `file_stem_of`.
#[verifier::external_body]
pub(crate) fn file_stem(path: &str) -> (stem: Option<String>)
    ensures
        (match stem {
            Some(text) => file_stem_of(path@) == Some(text@),
            None => file_stem_of(path@).is_none(),
        }),
{
    std::path::Path::new(path).file_stem().map(|stem| stem.to_string_lossy().into_owned())
}

/// The path without its final component as `std::path::Path::parent` gives
/// it.
pub uninterp spec fn parent_of(path: Seq<char>) -> Option<Seq<char>>;

/// The directory of `path` with `std::path::Path::parent`: none where the
/// path is a root or empty. What it is goes by the name `parent_of`.
#[verifier::external_body]
pub(crate) fn parent(path: &str) -> (directory: Option<String>)
    ensures
        (match directory {
            Some(text) => parent_of(path@) == Some(text@),
            None => parent_of(path@).is_none(),
        }),
{
    std::path::Path::new(path).parent().map(|directory| directory.to_string_lossy().into_owned())
}

/// The path below a base as `std::path::Path::strip_prefix` gives it.
pub uninterp spec fn below(path: Seq<char>, base: Seq<char>) -> Option<Seq<char>>;

/// The part of `path` below `base` with `std::path::Path::strip_prefix`:
/// none where `base` is no prefix of `path`, component by component. What it
/// is goes by the name `below`.
#[verifier::external_body]
pub(crate) fn strip_prefix(path: &str, base: &str) -> (rest: Option<String>)
    ensures
        (match rest {
            Some(text) => below(path@, base@) == Some(text@),
            None => below(path@, base@).is_none(),
        }),
{
    std::path::Path::new(path).strip_prefix(base).ok().map(|rest| rest.to_string_lossy().into_owned())
}

/// The components of a path as `std::path::Path::iter` gives them.
pub uninterp spec fn components_of(path: Seq<char>) -> Seq<Seq<char>>;

/// The texts of a list of strings.
pub open spec fn texts(strings: Seq<String>) -> Seq<Seq<char>> {
    strings.map_values(|text: String| text@)
}

/// The components of `path` with `std::path::Path::iter`, each as text. What
/// they are goes by the name `components_of`.
#[verifier::external_body]
pub(crate) fn components(path: &str) -> (parts: Vec<String>)
    ensures
        texts(parts@) == components_of(path@),
{
    std::path::Path::new(path).iter().map(|part| part.to_string_lossy().into_owned()).collect()
}

} // verus!
