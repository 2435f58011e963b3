//! 256-bit arithmetic for `Amount`, done by `alloy_primitives::U256`.
//!
//! The vault's proportional math multiplies and divides full 256-bit
//! amounts. Those two operations are carried out by the `U256` type of
//! `alloy_primitives` and trusted with the contracts below; everything
//! around them is verified.

use vstd::prelude::*;

use crate::types::Amount;
use crate::words::pow2_256;

verus! {

/// Relies on alloy_primitives::U256::checked_mul, which returns the product
/// of two 256-bit integers, or None when the product does not fit in 256
/// bits; from_be_slice and to_be_bytes convert between the integer and its
/// 32-byte big-endian word.
#[verifier::external_body]
pub(crate) fn amount_checked_mul(a: &Amount, b: &Amount) -> (r: Option<Amount>)
    requires
        a.wf(),
        b.wf(),
    ensures
        match r {
            Some(c) => c.wf() && c.value() == a.value() * b.value(),
            None => a.value() * b.value() >= pow2_256(),
        },
{
    let x = alloy_primitives::U256::from_be_slice(a.as_bytes());
    let y = alloy_primitives::U256::from_be_slice(b.as_bytes());
    match x.checked_mul(y) {
        Some(p) => Some(Amount { bytes: p.to_be_bytes::<32>().to_vec() }),
        None => None,
    }
}

/// Relies on alloy_primitives::U256::checked_div, which returns the quotient
/// rounded towards zero, or None when the divisor is zero; from_be_slice and
/// to_be_bytes convert between the integer and its 32-byte big-endian word.
#[verifier::external_body]
pub(crate) fn amount_checked_div(a: &Amount, b: &Amount) -> (r: Option<Amount>)
    requires
        a.wf(),
        b.wf(),
    ensures
        match r {
            Some(c) => b.value() != 0 && c.wf() && c.value() == a.value() / b.value(),
            None => b.value() == 0,
        },
{
    let x = alloy_primitives::U256::from_be_slice(a.as_bytes());
    let y = alloy_primitives::U256::from_be_slice(b.as_bytes());
    match x.checked_div(y) {
        Some(q) => Some(Amount { bytes: q.to_be_bytes::<32>().to_vec() }),
        None => None,
    }
}

} // verus!
