//! The host runtime's identifier convention. Declared names are snake_case on
//! the native side and mixedCase on the host side; the conversion itself is
//! done by an outside case-conversion library and is a function of the
//! characters alone, so its result is given a name that the registration
//! builder's contracts speak of.

use vstd::prelude::*;

verus! {

pub uninterp spec fn mixed_case_of(s: Seq<char>) -> Seq<char>;

/// Relies on heck's `MixedCase::to_mixed_case` for `str`: converts a name to
/// the mixedCase convention. The result depends on the input characters
/// alone, and an empty input gives an empty output.
#[verifier::external_body]
pub(crate) fn to_mixed_case(s: &str) -> (r: String)
    ensures
        r@ == mixed_case_of(s@),
        s@.len() == 0 ==> r@.len() == 0,
{
    heck::MixedCase::to_mixed_case(s)
}

} // verus!
