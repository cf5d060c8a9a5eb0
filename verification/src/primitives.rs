//! Arithmetic on the runtime's primitive types, supplied by the `num` crate.
//!
//! Every function here is a thin call into `num`; its contract is taken on
//! trust from the implementations of `num`'s traits for the built-in integers.

use vstd::prelude::*;
use crate::types::{Balance, BlockNumber, Nonce};

verus! {

/// `num::Zero::zero` for the balance type: the additive identity, `0`.
#[verifier::external_body]
pub(crate) fn zero_balance() -> (r: Balance)
    ensures
        r == 0,
{
    let z: Balance = num::Zero::zero();
    z
}

/// `num::Zero::zero` for the 32-bit counters (block number and nonce): `0`.
#[verifier::external_body]
pub(crate) fn zero_counter() -> (r: u32)
    ensures
        r == 0,
{
    let z: u32 = num::Zero::zero();
    z
}

/// `num::One::one` for the 32-bit counters (block number and nonce): `1`.
#[verifier::external_body]
pub(crate) fn one_counter() -> (r: u32)
    ensures
        r == 1,
{
    let o: u32 = num::One::one();
    o
}

/// `num::CheckedAdd::checked_add` on balances: the sum when it fits in the
/// balance type, `None` when it does not.
#[verifier::external_body]
pub(crate) fn checked_add_balance(a: Balance, b: Balance) -> (r: Option<Balance>)
    ensures
        match r {
            Some(sum) => sum == a + b,
            None => a + b > Balance::MAX,
        },
{
    num::CheckedAdd::checked_add(&a, &b)
}

/// `num::CheckedSub::checked_sub` on balances: the difference when the
/// subtrahend does not exceed the minuend, `None` when it does.
#[verifier::external_body]
pub(crate) fn checked_sub_balance(a: Balance, b: Balance) -> (r: Option<Balance>)
    ensures
        match r {
            Some(diff) => diff == a - b,
            None => a < b,
        },
{
    num::CheckedSub::checked_sub(&a, &b)
}

} // verus!
