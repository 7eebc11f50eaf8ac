//! The fee for storing content, in the canonical token.
//!
//! The fee is linear in the size of the content, with a service markup in
//! percent on top. The markup rounds down.

use crate::amount::Amount;
use vstd::prelude::*;

verus! {

/// The fee for `size` bytes: the base price and the byte price for each
/// byte, raised by `rate` percent and rounded down.
pub open spec fn canonical_fee(base_price: nat, byte_price: nat, rate: nat, size: nat) -> nat {
    (base_price + byte_price * size) * (100 + rate) / 100
}

/// The fee for `size` bytes: the base price and the byte price for each
/// byte, raised by `rate` percent and rounded down.
pub fn compute_canonical_fee(base_price: &Amount, byte_price: &Amount, rate: &Amount, size: u64) -> (fee:
    Amount)
    ensures
        fee@ == canonical_fee(base_price@, byte_price@, rate@, size as nat),
{
    let linear = base_price.plus(&byte_price.times(&Amount::from_u64(size)));
    let percent = Amount::from_u64(100);
    match linear.times(&percent.plus(rate)).div_floor(&percent) {
        Some(fee) => fee,
        None => Amount::zero(),
    }
}

} // verus!
