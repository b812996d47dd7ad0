//! The master-key check behind the users routes.  Extracting the bearer
//! token from a request is the surrounding program's job; the comparison
//! itself lives here, in constant time.

use subtle::ConstantTimeEq;
use vstd::prelude::*;

verus! {

/// Relies on subtle's `ct_eq` for byte slices: true exactly for equal
/// contents, compared without data-dependent timing.  Equal UTF-8 bytes mean
/// equal strings, the encoding being injective.
#[verifier::external_body]
fn ct_eq_str(a: &str, b: &str) -> (r: bool)
    ensures
        r == (a@ == b@),
{
    a.as_bytes().ct_eq(b.as_bytes()).unwrap_u8() == 1
}

/// Compares a presented token against the configured master key without
/// data-dependent timing.
pub fn constant_time_compare(a: &str, b: &str) -> (r: bool)
    ensures
        r == (a@ == b@),
{
    ct_eq_str(a, b)
}

} // verus!
