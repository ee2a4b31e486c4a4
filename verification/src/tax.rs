use vstd::prelude::*;
use vstd::arithmetic::div_mod::lemma_div_by_multiple;
use vstd::arithmetic::div_mod::lemma_div_is_ordered_by_denominator;
use vstd::arithmetic::div_mod::lemma_div_pos_is_pos;
use vstd::arithmetic::mul::lemma_mul_inequality;
use crate::types::Coin;

verus! {

/// Fixed-point scale of the protocol tax rate: a rate of `r` atomics
/// stands for the fraction `r / 10^18`.
pub const DECIMAL_FRACTION: u128 = 1_000_000_000_000_000_000u128;

/// Portion of `amount` that survives the protocol transfer tax before the
/// cap applies: `floor(amount * 10^18 / (tax_rate + 10^18))`.
pub open spec fn spec_net_of_rate(amount: u64, tax_rate: u64) -> int {
    (amount as int) * (DECIMAL_FRACTION as int) / ((tax_rate as int) + (DECIMAL_FRACTION as int))
}

/// Protocol transfer tax charged on `amount`: the rate-proportional part,
/// capped at `tax_cap`.
pub open spec fn spec_compute_tax(amount: u64, tax_rate: u64, tax_cap: u64) -> int {
    let tax = amount - spec_net_of_rate(amount, tax_rate);
    if tax <= tax_cap {
        tax
    } else {
        tax_cap as int
    }
}

/// The rate-proportional kept part never exceeds the amount itself and is
/// never negative, so the tax lies between 0 and `amount`.
pub proof fn lemma_net_of_rate_bounds(amount: u64, tax_rate: u64)
    ensures
        0 <= spec_net_of_rate(amount, tax_rate) <= amount,
{
    let a = amount as int;
    let df = DECIMAL_FRACTION as int;
    let den = (tax_rate as int) + df;
    lemma_mul_inequality(0, a, df);
    lemma_div_pos_is_pos(a * df, den);
    lemma_div_is_ordered_by_denominator(a * df, df, den);
    lemma_div_by_multiple(a, df);
    assert(a * df == df * a) by (nonlinear_arith);
    assert((a * df) / df == a);
}

/// Computes the protocol transfer tax on `amount` at fixed-point rate
/// `tax_rate`, capped at `tax_cap`.
pub fn compute_tax(amount: u64, tax_rate: u64, tax_cap: u64) -> (r: u64)
    ensures
        r == spec_compute_tax(amount, tax_rate, tax_cap),
        r <= amount,
        r <= tax_cap,
{
    proof {
        lemma_net_of_rate_bounds(amount, tax_rate);
        lemma_mul_inequality(amount as int, u64::MAX as int, DECIMAL_FRACTION as int);
    }
    let num: u128 = (amount as u128) * DECIMAL_FRACTION;
    let den: u128 = (tax_rate as u128) + DECIMAL_FRACTION;
    let kept: u128 = num / den;
    let tax: u64 = amount - (kept as u64);
    if tax <= tax_cap {
        tax
    } else {
        tax_cap
    }
}

/// Net coin left for the recipient once the protocol transfer tax is
/// deducted from `coin`.
pub fn deduct_tax(coin: Coin, tax_rate: u64, tax_cap: u64) -> (r: Coin)
    ensures
        r.denom == coin.denom,
        r.amount == coin.amount - spec_compute_tax(coin.amount, tax_rate, tax_cap),
{
    proof {
        lemma_net_of_rate_bounds(coin.amount, tax_rate);
    }
    let tax: u64 = compute_tax(coin.amount, tax_rate, tax_cap);
    Coin { denom: coin.denom, amount: coin.amount - tax }
}

} // verus!
