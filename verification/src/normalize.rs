//! Wikidot slug normalization.
//!
//! Page slugs are kept in Wikidot normal form: case-folded, with
//! disallowed characters collapsed into dashes and dash runs merged.
//! The transformation itself lives in the `wikidot_normalize` crate;
//! here it is given a name and a verified entry point.

use vstd::prelude::*;

verus! {

/// The Wikidot normal form of a string of characters. The form is a
/// function of the characters alone; what it is on given values is the
/// `wikidot_normalize` crate's definition.
pub uninterp spec fn wikidot_normal_form(s: Seq<char>) -> Seq<char>;

/// Relies on wikidot_normalize::normalize: rewrites the string, in
/// place, to Wikidot normal form, a deterministic function of the
/// characters alone.
#[verifier::external_body]
fn normalize_in_place(text: &mut String)
    ensures
        final(text)@ == wikidot_normal_form(old(text)@),
{
    wikidot_normalize::normalize(text)
}

/// Returns the Wikidot normal form of a value, as the normalization
/// endpoint computes it.
pub fn normalize_method(value: String) -> (r: String)
    ensures
        r@ == wikidot_normal_form(value@),
{
    let mut value = value;
    normalize_in_place(&mut value);
    value
}

} // verus!
