//! Joining of filesystem paths held as text.

use vstd::prelude::*;

verus! {

/// The text of the path that `std::path::Path::join` gives for `base` joined
/// with `rel` on the platform the crate is compiled for.
pub uninterp spec fn joined(base: Seq<char>, rel: Seq<char>) -> Seq<char>;

/// Calls `std::path::Path::join` on `base` with `rel`. Both are UTF-8 text and
/// joining adds at most a separator, so the path that comes back is text too;
/// the contract names it and claims nothing else of it.
#[verifier::external_body]
pub(crate) fn join(base: &str, rel: &str) -> (r: String)
    ensures
        r@ == joined(base@, rel@),
{
    std::path::Path::new(base).join(rel).to_string_lossy().into_owned()
}

} // verus!
