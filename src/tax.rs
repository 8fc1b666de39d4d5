use vstd::prelude::*;
use vstd::arithmetic::div_mod::{lemma_div_by_multiple, lemma_div_is_ordered_by_denominator};
use cosmwasm_bignumber::{Decimal256, Uint256};
use crate::types::TaxParams;

verus! {

/// Scale of an 18-decimal fixed-point fraction: the atomics of one.
pub const DECIMAL_FRACTIONAL: u128 = 1_000_000_000_000_000_000;

/// The tax charged on a transfer of `amount`: the part of the amount that
/// exceeds `amount / (1 + rate)`, rounded down, and never more than `cap`.
/// `rate` is in 18-decimal fixed point.
pub open spec fn tax_of(amount: int, rate: int, cap: int) -> int {
    let f = DECIMAL_FRACTIONAL as int;
    let uncapped = amount - amount * f / (f + rate);
    if uncapped < cap {
        uncapped
    } else {
        cap
    }
}

/// What a transfer of `amount` delivers once the tax is taken off.
pub open spec fn net_after_tax(amount: int, tax: TaxParams) -> int {
    amount - tax_of(amount, tax.rate as int, tax.cap as int)
}

/// Relies on cosmwasm_bignumber's `Uint256 / Decimal256`: the amount times
/// 10^18, divided by the decimal's atomics, rounded down (computed in 256 bits).
#[verifier::external_body]
fn div_by_decimal(amount: u128, atomics: u128) -> (r: u128)
    requires
        atomics >= DECIMAL_FRACTIONAL,
    ensures
        r as int == (amount as int) * (DECIMAL_FRACTIONAL as int) / (atomics as int),
{
    let quotient: Uint256 = Uint256::from(amount) / Decimal256(Uint256::from(atomics).0);
    let r: u128 = quotient.into();
    r
}

/// Scaling down by a divisor of at least one never grows an amount.
pub(crate) proof fn lemma_discount_bounded(amount: int, atomics: int)
    requires
        0 <= amount,
        atomics >= DECIMAL_FRACTIONAL,
    ensures
        0 <= amount * (DECIMAL_FRACTIONAL as int) / atomics <= amount,
{
    let f = DECIMAL_FRACTIONAL as int;
    assert(0 <= amount * f) by (nonlinear_arith)
        requires
            0 <= amount,
            0 < f,
    ;
    lemma_div_is_ordered_by_denominator(amount * f, f, atomics);
    lemma_div_by_multiple(amount, f);
    assert(amount * f / atomics >= 0) by (nonlinear_arith)
        requires
            0 <= amount * f,
            0 < atomics,
    ;
}

/// Takes the chain's transfer tax off `amount` and returns what the
/// recipient receives.
pub fn deduct_tax(amount: u128, tax: TaxParams) -> (r: u128)
    ensures
        r == net_after_tax(amount as int, tax),
        r <= amount,
{
    let atomics: u128 = DECIMAL_FRACTIONAL + tax.rate as u128;
    let discounted = div_by_decimal(amount, atomics);
    proof {
        lemma_discount_bounded(amount as int, atomics as int);
    }
    let uncapped: u128 = amount - discounted;
    let tax_amount: u128 = if uncapped < tax.cap {
        uncapped
    } else {
        tax.cap
    };
    amount - tax_amount
}

} // verus!
