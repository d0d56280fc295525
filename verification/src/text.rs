//! Helpers on text that the rest of the crate shares.
use vstd::prelude::*;

verus! {

/// std's equality on string slices, `<str as PartialEq>::eq`: two slices are
/// equal exactly when they hold the same characters.
pub assume_specification[ <str as PartialEq>::eq ](left: &str, right: &str) -> (equal: bool)
    ensures
        equal == (left@ == right@),
;

/// `text` without the white space at its start and at its end, as std's
/// `str::trim` gives it.
pub uninterp spec fn trimmed(text: Seq<char>) -> Seq<char>;

/// Calls std's `str::trim`.
///
/// The contract claims that the result depends on the characters alone and
/// gives it the name [`trimmed`].
#[verifier::external_body]
pub(crate) fn trim(text: &str) -> (inner: &str)
    ensures
        inner@ == trimmed(text@),
{
    text.trim()
}

/// The texts of `items`, in order.
pub open spec fn texts(items: Seq<String>) -> Seq<Seq<char>> {
    items.map_values(|item: String| item@)
}

} // verus!
