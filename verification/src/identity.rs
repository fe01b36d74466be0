//! The identity of a caller, as the hosting platform hands it out.

use vstd::prelude::*;
use candid::Principal;

verus! {

/// `candid::Principal` (candid hands on the type of `ic_principal` under this
/// name), carried through the store as an opaque value: the store copies it
/// and compares it, and never looks inside.
#[verifier::external_type_specification]
#[verifier::external_body]
pub struct ExPrincipal(candid::Principal);

/// Compares two principals with `PartialEq::eq` of `candid::Principal`.
///
/// That `eq` is the derived one: it compares the length and the whole byte
/// buffer, which is all a principal holds. The contract claims, without
/// proof, that the result is `true` exactly when the two are the same value.
#[verifier::external_body]
pub(crate) fn same_principal(a: &Principal, b: &Principal) -> (same: bool)
    ensures
        same == (*a == *b),
{
    *a == *b
}

} // verus!
