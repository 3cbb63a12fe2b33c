//! Owner normalization: every owner comparison runs on the lowercased name.

use vstd::prelude::*;

verus! {

/// The lowercase folding of a character sequence. Named but not written out
/// here: the trusted wrapper below ties it to the standard library's case
/// folding.
pub uninterp spec fn lower_of(s: Seq<char>) -> Seq<char>;

/// Relies on str::to_lowercase: the result depends on the characters alone.
#[verifier::external_body]
pub(crate) fn lowercase(s: &str) -> (r: String)
    ensures
        r@ == lower_of(s@),
{
    s.to_lowercase()
}

} // verus!
