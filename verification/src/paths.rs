//! Path operations of `std::path` on UTF-8 path text. Their results are functions of the text
//! alone and are named here; the library's decisions are stated over those names.
use vstd::prelude::*;
use std::path::Path;

verus! {

/// What `Path::file_name` yields for this path text, lossily converted to text.
pub uninterp spec fn std_file_name(path: Seq<char>) -> Option<Seq<char>>;

/// What `Path::extension` yields for this path text, lossily converted to text.
pub uninterp spec fn std_extension(path: Seq<char>) -> Option<Seq<char>>;

/// What `Path::file_stem` yields for this path text, lossily converted to text.
pub uninterp spec fn std_file_stem(path: Seq<char>) -> Option<Seq<char>>;

/// What `Path::join` yields for these two path texts, lossily converted to text.
pub uninterp spec fn std_join(base: Seq<char>, tail: Seq<char>) -> Seq<char>;

/// What `Path::starts_with` yields: whether `base` is a prefix of `path`, component by
/// component.
pub uninterp spec fn std_starts_with(path: Seq<char>, base: Seq<char>) -> bool;

/// `Path::file_name`: the final component of the path, if it is a normal one.
#[verifier::external_body]
pub(crate) fn file_name(path: &str) -> (r: Option<String>)
    ensures
        match r {
            Some(name) => std_file_name(path@) == Some(name@),
            None => std_file_name(path@) is None,
        },
{
    Path::new(path).file_name().map(|name| name.to_string_lossy().into_owned())
}

/// `Path::extension`: the part of the file name after its last interior dot.
#[verifier::external_body]
pub(crate) fn extension(path: &str) -> (r: Option<String>)
    ensures
        match r {
            Some(ext) => std_extension(path@) == Some(ext@),
            None => std_extension(path@) is None,
        },
{
    Path::new(path).extension().map(|ext| ext.to_string_lossy().into_owned())
}

/// `Path::file_stem`: the file name without its extension.
#[verifier::external_body]
pub(crate) fn file_stem(path: &str) -> (r: Option<String>)
    ensures
        match r {
            Some(stem) => std_file_stem(path@) == Some(stem@),
            None => std_file_stem(path@) is None,
        },
{
    Path::new(path).file_stem().map(|stem| stem.to_string_lossy().into_owned())
}

/// `Path::join`: `tail` appended to `base` with a separator, or `tail` alone when absolute.
#[verifier::external_body]
pub(crate) fn join_path(base: &str, tail: &str) -> (r: String)
    ensures
        r@ == std_join(base@, tail@),
{
    Path::new(base).join(tail).to_string_lossy().into_owned()
}

/// `Path::starts_with`: whether `base` is a component-wise prefix of `path`.
#[verifier::external_body]
pub(crate) fn starts_with(path: &str, base: &str) -> (r: bool)
    ensures
        r == std_starts_with(path@, base@),
{
    Path::new(path).starts_with(Path::new(base))
}

} // verus!
