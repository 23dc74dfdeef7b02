//! Rational numbers as they cross the native boundary: a numerator and a
//! denominator, held in a [`Ratio`] exactly as given, never reduced.
use num_rational::Ratio;
use vstd::prelude::*;

verus! {

#[verifier::external_type_specification]
#[verifier::external_body]
#[verifier::reject_recursive_types(T)]
pub struct ExRatio<T>(Ratio<T>);

/// The numerator and the denominator that a signed ratio holds, in this
/// order: what `Ratio::into_raw` hands out.
pub uninterp spec fn signed_parts(r: Ratio<i64>) -> (i64, i64);

/// The numerator and the denominator that an unsigned ratio holds, in this
/// order: what `Ratio::into_raw` hands out.
pub uninterp spec fn unsigned_parts(r: Ratio<u64>) -> (u64, u64);

/// Calls `Ratio::new_raw`, which stores both numbers as they are: it neither
/// reduces the fraction nor looks at the denominator.
#[verifier::external_body]
pub(crate) fn signed_ratio(numer: i64, denom: i64) -> (r: Ratio<i64>)
    ensures
        signed_parts(r) == (numer, denom),
{
    Ratio::new_raw(numer, denom)
}

/// Calls `Ratio::new_raw`, which stores both numbers as they are: it neither
/// reduces the fraction nor looks at the denominator.
#[verifier::external_body]
pub(crate) fn unsigned_ratio(numer: u64, denom: u64) -> (r: Ratio<u64>)
    ensures
        unsigned_parts(r) == (numer, denom),
{
    Ratio::new_raw(numer, denom)
}

/// Calls `Ratio::numer`, which hands out the stored numerator.
#[verifier::external_body]
pub(crate) fn unsigned_numer(r: &Ratio<u64>) -> (n: u64)
    ensures
        n == unsigned_parts(*r).0,
{
    *r.numer()
}

/// Calls `Ratio::denom`, which hands out the stored denominator.
#[verifier::external_body]
pub(crate) fn unsigned_denom(r: &Ratio<u64>) -> (d: u64)
    ensures
        d == unsigned_parts(*r).1,
{
    *r.denom()
}

} // verus!
