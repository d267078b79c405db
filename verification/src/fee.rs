use vstd::prelude::*;

verus! {

/// Scale of the fixed-precision decimal fee rate: a rate is a numerator
/// over this denominator (18 decimal places), as in the market's
/// 256-bit decimal type.
pub const FEE_SCALE: u64 = 1_000_000_000_000_000_000;

/// The fee owed on a borrowed amount at a given rate numerator:
/// `amount * rate / FEE_SCALE`, truncating.
pub open spec fn spec_fee(amount: nat, rate: nat) -> nat {
    (amount * rate) / (FEE_SCALE as nat)
}

/// Relies on cosmwasm_bignumber: `Decimal256 * Uint256` is
/// `amount * rate / 10^18` with truncating 256-bit integer division
/// (`Uint256::multiply_ratio`, with a zero short-circuit that agrees with
/// the formula). With `rate < FEE_SCALE` the product stays below 2^188,
/// so the 256-bit multiplication cannot overflow and the quotient is
/// strictly less than `amount`, so the conversion back to `u128` cannot
/// fail.
#[verifier::external_body]
pub(crate) fn decimal_mul(amount: u128, rate: u64) -> (r: u128)
    requires
        rate < FEE_SCALE,
    ensures
        r == spec_fee(amount as nat, rate as nat),
{
    let rate256 = cosmwasm_bignumber::Decimal256::from_ratio(rate, FEE_SCALE);
    let amount256 = cosmwasm_bignumber::Uint256::from(amount);
    u128::from(rate256 * amount256)
}

/// The fee vanishes on a zero amount or a zero rate.
pub proof fn lemma_fee_zero(amount: nat, rate: nat)
    ensures
        amount == 0 ==> spec_fee(amount, rate) == 0,
        rate == 0 ==> spec_fee(amount, rate) == 0,
{
    assert(amount * 0 == 0) by (nonlinear_arith);
    assert(0nat * rate == 0) by (nonlinear_arith);
}

} // verus!
