//! File-name operations of `std::path`, on paths held as text.
use vstd::prelude::*;

verus! {

/// What `Path::extension` gives for a path: the part of the file name after
/// its last `.`, if the file name has one that is not its first character.
pub uninterp spec fn path_extension_spec(path: Seq<char>) -> Option<Seq<char>>;

/// What `Path::file_stem` gives for a path: the file name without its
/// extension.
pub uninterp spec fn path_file_stem_spec(path: Seq<char>) -> Option<Seq<char>>;

/// What `Path::parent` gives for a path, with `None` read as the empty path.
pub uninterp spec fn path_parent_spec(path: Seq<char>) -> Seq<char>;

/// What `Path::join` gives for a base path and a file name.
pub uninterp spec fn path_join_spec(base: Seq<char>, name: Seq<char>) -> Seq<char>;

/// The `Debug` text of a path (its text quoted and escaped).
pub uninterp spec fn path_debug_spec(path: Seq<char>) -> Seq<char>;

/// Calls `Path::extension` and returns it as text. The standard library
/// documents the rule in words; it is named here, not restated.
#[verifier::external_body]
pub(crate) fn path_extension(path: &str) -> (r: Option<String>)
    ensures
        match r {
            Some(e) => path_extension_spec(path@) == Some(e@),
            None => path_extension_spec(path@) is None,
        },
{
    let extension = std::path::Path::new(path).extension()?;
    Some(extension.to_str()?.to_string())
}

/// Calls `Path::file_stem` and returns it as text.
#[verifier::external_body]
pub(crate) fn path_file_stem(path: &str) -> (r: Option<String>)
    ensures
        match r {
            Some(e) => path_file_stem_spec(path@) == Some(e@),
            None => path_file_stem_spec(path@) is None,
        },
{
    let stem = std::path::Path::new(path).file_stem()?;
    Some(stem.to_str()?.to_string())
}

/// Calls `Path::parent` and returns it as text (empty for `None`).
#[verifier::external_body]
pub(crate) fn path_parent(path: &str) -> (r: String)
    ensures
        r@ == path_parent_spec(path@),
{
    match std::path::Path::new(path).parent() {
        Some(parent) => parent.display().to_string(),
        None => String::new(),
    }
}

/// Calls `Path::join` and returns the joined path as text.
#[verifier::external_body]
pub(crate) fn path_join(base: &str, name: &str) -> (r: String)
    ensures
        r@ == path_join_spec(base@, name@),
{
    std::path::Path::new(base).join(name).display().to_string()
}

/// Formats a path with `{:?}`, as the `Debug` impl of `Path` writes it.
#[verifier::external_body]
pub(crate) fn path_debug(path: &str) -> (r: String)
    ensures
        r@ == path_debug_spec(path@),
{
    format!("{:?}", std::path::Path::new(path))
}

} // verus!
