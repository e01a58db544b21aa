//! File system paths. A path is carried as `std::path::PathBuf`; what is
//! inside one is known to the standard library alone. What the standard
//! library makes of a path has a name here, so that contracts can say which
//! path a function hands on, though not what it spells.

use std::path::PathBuf;
use vstd::prelude::*;

verus! {

/// `std::path::PathBuf`, taken as a type whose values are opaque.
#[verifier::external_type_specification]
#[verifier::external_body]
pub struct ExPathBuf(std::path::PathBuf);

/// The path that a text spells, as `PathBuf::from` gives it.
pub uninterp spec fn path_of(text: Seq<char>) -> PathBuf;

/// `base` with `part` added as one more component, as `Path::join` gives it.
pub uninterp spec fn path_joined(base: PathBuf, part: Seq<char>) -> PathBuf;

/// The path with the extension of its file name replaced, as
/// `Path::with_extension` gives it.
pub uninterp spec fn extension_replaced(path: PathBuf, extension: Seq<char>) -> PathBuf;

/// The path with its last component replaced, as `Path::with_file_name` gives
/// it.
pub uninterp spec fn file_name_replaced(path: PathBuf, name: Seq<char>) -> PathBuf;

/// The file name of the path without its extension, where the path has a file
/// name, as `Path::file_stem` gives it; what is no Unicode in it is replaced.
pub uninterp spec fn stem_text(path: PathBuf) -> Option<Seq<char>>;

/// The extension of the file name of the path, where it has one, as
/// `Path::extension` gives it; what is no Unicode in it is replaced.
pub uninterp spec fn extension_text(path: PathBuf) -> Option<Seq<char>>;

/// The path as text for a message, as `Path::display` gives it.
pub uninterp spec fn display_text(path: PathBuf) -> Seq<char>;

/// Whether `c` separates the components of a path on some system.
pub open spec fn is_separator(c: char) -> bool {
    c == '/' || c == '\\'
}

/// `dirs::cache_dir`: the cache directory of the user, where the system names
/// one. It depends on the user and the system, so nothing is claimed of it.
#[verifier::external_body]
pub(crate) fn cache_dir() -> Option<PathBuf> {
    dirs::cache_dir()
}

/// `PathBuf::from`: the path that a string spells. It depends on the string
/// alone.
#[verifier::external_body]
pub(crate) fn path_from(s: &str) -> (r: PathBuf)
    ensures
        r == path_of(s@),
{
    PathBuf::from(s)
}

/// `Path::join`: `base` with `part` added as one more component. The result
/// depends on the two alone.
#[verifier::external_body]
pub(crate) fn path_join(base: &PathBuf, part: &str) -> (r: PathBuf)
    ensures
        r == path_joined(*base, part@),
{
    base.join(part)
}

/// `PathBuf::clone`: a copy that equals the path.
#[verifier::external_body]
pub(crate) fn clone_path(path: &PathBuf) -> (r: PathBuf)
    ensures
        r == *path,
{
    path.clone()
}

/// `Path::with_extension`: the path with the extension of its file name
/// replaced. The result depends on the two alone. An extension that holds a
/// separator makes the standard library panic, so none may be given.
#[verifier::external_body]
pub(crate) fn with_extension(path: &PathBuf, extension: &str) -> (r: PathBuf)
    requires
        forall|i: int| 0 <= i < extension@.len() ==> !is_separator(#[trigger] extension@[i]),
    ensures
        r == extension_replaced(*path, extension@),
{
    path.with_extension(extension)
}

/// `Path::with_file_name`: the path with its last component replaced. The
/// result depends on the two alone.
#[verifier::external_body]
pub(crate) fn with_file_name(path: &PathBuf, name: &str) -> (r: PathBuf)
    ensures
        r == file_name_replaced(*path, name@),
{
    path.with_file_name(name)
}

/// `Path::file_stem`: the file name without its extension, where the path has
/// a file name; characters that are no Unicode are replaced. The result
/// depends on the path alone.
#[verifier::external_body]
pub(crate) fn file_stem(path: &PathBuf) -> (r: Option<String>)
    ensures
        match r {
            Some(s) => stem_text(*path) == Some(s@),
            None => stem_text(*path) is None,
        },
{
    match path.file_stem() {
        Some(stem) => Some(stem.to_string_lossy().into_owned()),
        None => None,
    }
}

/// `Path::extension`: the extension of the file name, where it has one;
/// characters that are no Unicode are replaced. The result depends on the
/// path alone.
#[verifier::external_body]
pub(crate) fn extension(path: &PathBuf) -> (r: Option<String>)
    ensures
        match r {
            Some(s) => extension_text(*path) == Some(s@),
            None => extension_text(*path) is None,
        },
{
    match path.extension() {
        Some(ext) => Some(ext.to_string_lossy().into_owned()),
        None => None,
    }
}

/// `Path::display`: the path as text for a message. The text depends on the
/// path alone.
#[verifier::external_body]
pub(crate) fn display(path: &PathBuf) -> (r: String)
    ensures
        r@ == display_text(*path),
{
    path.display().to_string()
}

/// `slice::sort` on paths: the same paths, in the order of `PathBuf`.
#[verifier::external_body]
pub(crate) fn sort_paths(paths: &mut Vec<PathBuf>)
    ensures
        final(paths)@.to_multiset() == old(paths)@.to_multiset(),
{
    paths.sort();
}

} // verus!
