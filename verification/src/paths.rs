//! Joining filesystem paths held as strings.
use vstd::prelude::*;

verus! {

/// The path that `std::path::Path::join` gives for `base` joined with `part`,
/// on the platform the library is built for.
pub uninterp spec fn joined_path(base: Seq<char>, part: Seq<char>) -> Seq<char>;

/// `std::path::Path::join` on paths given as UTF-8 strings, the result turned
/// back into a string. Its value is named, not spelled out: whether a
/// separator is inserted, and whether an absolute `part` replaces `base`,
/// follows the platform's path rules.
#[verifier::external_body]
pub(crate) fn path_join(base: &str, part: &str) -> (r: String)
    ensures
        r@ == joined_path(base@, part@),
{
    std::path::Path::new(base).join(part).to_string_lossy().into_owned()
}

} // verus!
