//! Lexical path operations on path text. Paths are handled as strings; the
//! platform's path rules decide how they split into components.

use std::path::Path;
use vstd::prelude::*;

verus! {

/// The path obtained by adjoining `rel` to `base` under the platform's rules
/// (an absolute `rel` replaces `base`).
pub uninterp spec fn joined_path(base: Seq<char>, rel: Seq<char>) -> Seq<char>;

/// Whether `base` is a prefix of `path`, whole components only.
pub uninterp spec fn path_has_prefix(path: Seq<char>, base: Seq<char>) -> bool;

/// The final component of `path`, if it has one that is a plain name.
pub uninterp spec fn base_name(path: Seq<char>) -> Option<Seq<char>>;

/// `Path::join` on path text. Both inputs are UTF-8, so the joined path is
/// too and converts back without loss. A function of the two texts alone.
#[verifier::external_body]
pub(crate) fn join_path(base: &str, rel: &str) -> (r: String)
    ensures
        r@ == joined_path(base@, rel@),
{
    Path::new(base).join(rel).to_string_lossy().into_owned()
}

/// `Path::starts_with` on path text: a lexical, component-wise comparison
/// that does not consult the file system.
#[verifier::external_body]
pub(crate) fn is_under(path: &str, base: &str) -> (b: bool)
    ensures
        b == path_has_prefix(path@, base@),
{
    Path::new(path).starts_with(base)
}

/// `Path::file_name` on path text: the last component, or `None` when the
/// path ends in `..` or has no component to name.
#[verifier::external_body]
pub(crate) fn file_name_of(path: &str) -> (r: Option<String>)
    ensures
        r is Some <==> base_name(path@) is Some,
        r matches Some(n) ==> base_name(path@) == Some(n@),
{
    Path::new(path).file_name().map(|n| n.to_string_lossy().into_owned())
}

} // verus!
