//! Fixed-point fee and constant-product arithmetic, in basis points.

use vstd::prelude::*;
use vstd::arithmetic::div_mod::{
    lemma_div_is_ordered,
    lemma_div_is_ordered_by_denominator,
    lemma_div_multiples_vanish,
};
use crate::errors::{DarkFlowError, UmbraError};

verus! {

/// One whole in basis points: 10000 bps = 100%.
pub const BPS_DENOMINATOR: u64 = 10000;

/// The largest fee rate a tier may charge (5%).
pub const MAX_FEE_BPS: u16 = 500;

/// `floor(amount * fee_bps / 10000)`.
pub open spec fn fee_of(amount: int, fee_bps: int) -> int {
    (amount * fee_bps) / 10000
}

/// What `apply_fee` returns: the net amount and the fee, or an overflow
/// when the fee would exceed the amount (a rate above 100%).
pub open spec fn apply_fee_spec(amount: u64, fee_bps: u16) -> Result<(u64, u64), UmbraError> {
    let fee = fee_of(amount as int, fee_bps as int);
    if fee <= amount {
        Ok(((amount - fee) as u64, fee as u64))
    } else {
        Err(UmbraError::ArithmeticOverflow)
    }
}

/// Splits `amount` into `(net_amount, fee_amount)` at `fee_bps`, with the
/// product taken in 128 bits.
pub fn apply_fee(amount: u64, fee_bps: u16) -> (r: Result<(u64, u64), UmbraError>)
    ensures
        r == apply_fee_spec(amount, fee_bps),
{
    proof {
        assert((amount as int) * (fee_bps as int) <= 0xffff_ffff_ffff_ffff * 0xffff)
            by (nonlinear_arith)
            requires amount <= 0xffff_ffff_ffff_ffffu64, fee_bps <= 0xffffu16;
    }
    let wide: u128 = (amount as u128) * (fee_bps as u128);
    let fee_wide: u128 = wide / (BPS_DENOMINATOR as u128);
    if fee_wide > amount as u128 {
        Err(UmbraError::ArithmeticOverflow)
    } else {
        let fee: u64 = fee_wide as u64;
        Ok((amount - fee, fee))
    }
}

/// Fee rates up to the tier maximum always split the amount exactly:
/// `net + fee == amount` and `fee == floor(amount * fee_bps / 10000)`.
pub proof fn lemma_apply_fee_exact(amount: u64, fee_bps: u16)
    requires
        fee_bps <= MAX_FEE_BPS,
    ensures
        apply_fee_spec(amount, fee_bps) matches Ok((net, fee)) && net + fee == amount && fee
            == (amount as int * fee_bps as int) / 10000,
{
    lemma_fee_at_most_amount(amount as int, fee_bps as int);
}

/// A rate of at most 100% never takes more than the amount.
pub proof fn lemma_fee_at_most_amount(amount: int, fee_bps: int)
    requires
        0 <= amount,
        0 <= fee_bps <= 10000,
    ensures
        0 <= fee_of(amount, fee_bps) <= amount,
{
    assert(amount * fee_bps <= amount * 10000) by (nonlinear_arith)
        requires 0 <= amount, 0 <= fee_bps <= 10000;
    assert(0 <= amount * fee_bps) by (nonlinear_arith)
        requires 0 <= amount, 0 <= fee_bps;
    lemma_div_is_ordered(amount * fee_bps, amount * 10000, 10000);
    lemma_div_multiples_vanish(amount, 10000);
    assert(10000 * amount == amount * 10000) by (nonlinear_arith);
    lemma_div_is_ordered(0, amount * fee_bps, 10000);
}

/// `reserve_out * input * (10000 - fee_bps)`.
pub open spec fn swap_numerator(input: int, reserve_in: int, reserve_out: int, fee_bps: int) -> int {
    reserve_out * input * (10000 - fee_bps)
}

/// `reserve_in * 10000 + input * (10000 - fee_bps)`.
pub open spec fn swap_denominator(input: int, reserve_in: int, reserve_out: int, fee_bps: int) -> int {
    reserve_in * 10000 + input * (10000 - fee_bps)
}

/// The constant-product output in closed form, or `MathOverflow` when the
/// numerator leaves 128 bits or the denominator is zero.
pub open spec fn constant_product_spec(input: u64, reserve_in: u64, reserve_out: u64, fee_bps: u16) -> Result<int, DarkFlowError> {
    let num = swap_numerator(input as int, reserve_in as int, reserve_out as int, fee_bps as int);
    let den = swap_denominator(input as int, reserve_in as int, reserve_out as int, fee_bps as int);
    if num > u128::MAX || den == 0 {
        Err(DarkFlowError::MathOverflow)
    } else {
        Ok(num / den)
    }
}

/// Output of a swap of `input` against a constant-product pool with the
/// given reserves, after a fee of `fee_bps` on the input:
/// `floor(reserve_out * input * f / (reserve_in * 10000 + input * f))` with
/// `f = 10000 - fee_bps`, every product taken in 128 bits and checked.
pub fn constant_product_output(input: u64, reserve_in: u64, reserve_out: u64, fee_bps: u16) -> (r: Result<u64, DarkFlowError>)
    requires
        fee_bps <= 10000,
    ensures
        match r {
            Ok(out) => constant_product_spec(input, reserve_in, reserve_out, fee_bps) == Ok::<int, DarkFlowError>(out as int),
            Err(e) => constant_product_spec(input, reserve_in, reserve_out, fee_bps) == Err::<int, DarkFlowError>(e),
        },
{
    let fee_factor: u128 = 10000u128 - fee_bps as u128;
    proof {
        assert((reserve_out as int) * (input as int) <= 0xffff_ffff_ffff_ffff * 0xffff_ffff_ffff_ffff)
            by (nonlinear_arith)
            requires reserve_out <= 0xffff_ffff_ffff_ffffu64, input <= 0xffff_ffff_ffff_ffffu64;
        assert((reserve_in as int) * 10000 <= 0xffff_ffff_ffff_ffff * 10000) by (nonlinear_arith)
            requires reserve_in <= 0xffff_ffff_ffff_ffffu64;
        assert((input as int) * (fee_factor as int) <= 0xffff_ffff_ffff_ffff * 10000) by (nonlinear_arith)
            requires input <= 0xffff_ffff_ffff_ffffu64, fee_factor <= 10000u128;
    }
    let partial: u128 = (reserve_out as u128) * (input as u128);
    let numerator: u128 = match partial.checked_mul(fee_factor) {
        Some(n) => n,
        None => {
            return Err(DarkFlowError::MathOverflow);
        },
    };
    let scaled_input: u128 = (input as u128) * fee_factor;
    let denominator: u128 = (reserve_in as u128) * 10000u128 + scaled_input;
    if denominator == 0 {
        return Err(DarkFlowError::MathOverflow);
    }
    let output: u128 = numerator / denominator;
    proof {
        let (ro, i, f) = (reserve_out as int, input as int, fee_factor as int);
        assert(ro * i * f == ro * (i * f)) by (nonlinear_arith);
        lemma_output_within_reserve(reserve_out as int, scaled_input as int, denominator as int);
    }
    Ok(output as u64)
}

/// `reserve_out * x / den` stays within `reserve_out` when `den >= x`.
proof fn lemma_output_within_reserve(reserve_out: int, x: int, den: int)
    requires
        0 <= reserve_out,
        0 <= x <= den,
        0 < den,
    ensures
        (reserve_out * x) / den <= reserve_out,
{
    if x == 0 {
        assert(reserve_out * x == 0) by (nonlinear_arith) requires x == 0;
    } else {
        assert(0 <= reserve_out * x) by (nonlinear_arith) requires 0 <= reserve_out, 0 <= x;
        lemma_div_is_ordered_by_denominator(reserve_out * x, x, den);
        lemma_div_multiples_vanish(reserve_out, x);
        assert(x * reserve_out == reserve_out * x) by (nonlinear_arith);
    }
}

} // verus!
