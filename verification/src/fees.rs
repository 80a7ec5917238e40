//! The runtime's fee model: computation weight is free and every byte of a
//! transaction costs one unit of balance.

use vstd::prelude::*;

verus! {

/// The weight of a dispatch: computation time and proof size.
#[derive(Clone, Copy, Debug, PartialEq, Eq)]
pub struct Weight {
    pub ref_time: u64,
    pub proof_size: u64,
}

impl Weight {
    /// Builds a weight from its two components.
    pub fn from_parts(ref_time: u64, proof_size: u64) -> (w: Weight)
        ensures
            w.ref_time == ref_time,
            w.proof_size == proof_size,
    {
        Weight { ref_time, proof_size }
    }
}

/// Balance charged per byte of an extrinsic (the `ConstU128<1>` of `LengthToFee`).
pub const LENGTH_FEE_MULTIPLIER: u128 = 1;

/// The smaller of `x` and `u128::MAX`: what a saturating product gives.
pub open spec fn saturate_u128(x: int) -> u128 {
    if x <= u128::MAX {
        x as u128
    } else {
        u128::MAX
    }
}

/// A weight-to-fee conversion that charges nothing (`NoFee`).
pub fn no_fee(weight: &Weight) -> (fee: u128)
    ensures
        fee == 0,
{
    0
}

/// A weight-to-fee conversion that charges `multiplier` per unit of reference
/// time, saturating at the largest balance (`ConstantMultiplier`).
pub fn constant_multiplier_fee(multiplier: u128, weight: &Weight) -> (fee: u128)
    ensures
        fee == saturate_u128(multiplier * weight.ref_time),
{
    let time: u128 = weight.ref_time as u128;
    match multiplier.checked_mul(time) {
        Some(v) => v,
        None => u128::MAX,
    }
}

/// The fee that the runtime charges for `weight` of computation: nothing.
pub fn weight_to_fee(weight: &Weight) -> (fee: u128)
    ensures
        fee == 0,
{
    no_fee(weight)
}

/// The balance that the runtime charges for `length` bytes.
pub open spec fn length_fee_spec(length: u32) -> int {
    LENGTH_FEE_MULTIPLIER * length
}

/// The fee that the runtime charges for an extrinsic of `length` bytes: one
/// unit per byte.
pub fn length_to_fee(length: u32) -> (fee: u128)
    ensures
        fee == length_fee_spec(length),
        fee == length,
{
    let weight: Weight = Weight::from_parts(length as u64, 0);
    constant_multiplier_fee(LENGTH_FEE_MULTIPLIER, &weight)
}

/// The length fee is linear: the fee of two byte counts together is the sum of
/// their fees, and a longer extrinsic never costs less.
pub proof fn lemma_length_fee_linear(a: u32, b: u32)
    requires
        a + b <= u32::MAX,
    ensures
        length_fee_spec((a + b) as u32) == length_fee_spec(a) + length_fee_spec(b),
        a <= b ==> length_fee_spec(a) <= length_fee_spec(b),
        length_fee_spec(0) == 0,
{
}

} // verus!
