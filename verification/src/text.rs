//! Text helpers that the handlers share.

use vstd::prelude::*;

verus! {

/// The lower-case form of a text, as Unicode defines it.
pub uninterp spec fn lowercase(text: Seq<char>) -> Seq<char>;

/// `str::to_lowercase`.
///
/// Trusted: the result depends on the text alone.
#[verifier::external_body]
pub(crate) fn to_lowercase(text: &str) -> (r: String)
    ensures
        r@ == lowercase(text@),
{
    text.to_lowercase()
}

/// Whether two texts are equal once case is set aside.
pub open spec fn same_ignoring_case(a: Seq<char>, b: Seq<char>) -> bool {
    lowercase(a) == lowercase(b)
}

/// Whether a text holds the character `c`.
pub fn contains_char(text: &str, c: char) -> (found: bool)
    ensures
        found == text@.contains(c),
{
    let mut found = false;
    for x in it: text.chars()
        invariant
            it.seq() == text@,
            found == exists|j: int| 0 <= j < it.index() && text@[j] == c,
    {
        if x == c {
            found = true;
        }
    }
    found
}

} // verus!
