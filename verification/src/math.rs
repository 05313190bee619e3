//! Checked fixed-point helpers for the exchange-rate arithmetic.
//!
//! Every product is computed in 128 bits, so the only failures are a division
//! by zero or a quotient that does not fit back into 64 bits; both are
//! reported as `None`, never silently wrapped or truncated.

use vstd::prelude::*;

verus! {

/// `floor(a * b / c)` as an unbounded integer, the quantity every pool
/// conversion is stated over.
pub open spec fn spec_mul_div(a: int, b: int, c: int) -> int {
    a * b / c
}

/// Computes `floor(a * b / c)`, failing exactly when `c == 0` or the result
/// does not fit in a `u64`.
pub fn mul_div(a: u64, b: u64, c: u64) -> (r: Option<u64>)
    ensures
        c == 0 ==> r is None,
        c != 0 && spec_mul_div(a as int, b as int, c as int) > u64::MAX ==> r is None,
        c != 0 && spec_mul_div(a as int, b as int, c as int) <= u64::MAX ==> r == Some(
            spec_mul_div(a as int, b as int, c as int) as u64,
        ),
{
    if c == 0 {
        return None;
    }
    proof {
        lemma_u64_mul_fits(a, b);
    }
    let wide: u128 = (a as u128) * (b as u128);
    let q: u128 = wide / (c as u128);
    if q > u64::MAX as u128 {
        None
    } else {
        Some(q as u64)
    }
}

/// The product of two 64-bit values always fits in 128 bits.
pub proof fn lemma_u64_mul_fits(a: u64, b: u64)
    ensures
        a * b <= u64::MAX * u64::MAX,
        a * b < u128::MAX,
{
    vstd::arithmetic::mul::lemma_mul_upper_bound(a as int, u64::MAX as int, b as int, u64::MAX as int);
    assert((u64::MAX as int) * (u64::MAX as int) < u128::MAX as int) by (nonlinear_arith);
}

} // verus!
