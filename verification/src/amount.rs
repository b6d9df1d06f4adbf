//! Fixed-point quantities: seven decimal digits, held in `i128`, and the
//! conversions between principal and shares.
//!
//! Every conversion is a product divided by a scale and rounded toward zero.
//! A product that leaves the range of `i128` is an overflow, never a wrap.

use crate::error::Error;
use vstd::arithmetic::div_mod::{lemma_fundamental_div_mod, lemma_mod_bound};
use vstd::prelude::*;

verus! {

/// One whole unit, and the scale of every exchange rate.
pub const PRECISION: i128 = 10_000_000;

/// The smallest amount that can be deposited or redeemed: a tenth of a unit.
pub const MIN_AMOUNT: i128 = 1_000_000;

/// The largest single deposit of a vault whose admin has set no other: a
/// million units.
pub const DEFAULT_MAX_DEPOSIT: i128 = 10_000_000_000_000;

/// `x / d` rounded toward zero, for a positive `d`.
pub open spec fn quotient(x: int, d: int) -> int {
    if x >= 0 {
        x / d
    } else {
        -((-x) / d)
    }
}

/// `a * b / d`, rounded toward zero, or why it cannot be had: the product
/// leaves the range of `i128`, or `d` is zero.
pub open spec fn mul_div(a: int, b: int, d: int) -> Result<int, Error> {
    if a * b > i128::MAX || a * b < i128::MIN {
        Err(Error::Overflow)
    } else if d == 0 {
        Err(Error::DivisionError)
    } else {
        Ok(quotient(a * b, d))
    }
}

/// Principal per share, scaled by `PRECISION`: one to one while no share
/// exists, else the assets over the supply, rounded down.
pub open spec fn rate_of(total_assets: int, supply: int) -> int {
    if supply == 0 {
        PRECISION as int
    } else {
        total_assets * PRECISION / supply
    }
}

/// The shares that `amount` of principal buys at `rate`, rounded down.
pub open spec fn shares_for(amount: int, rate: int) -> int {
    amount * PRECISION / rate
}

/// The principal that `shares` redeem at `rate`, rounded down.
pub open spec fn principal_for(shares: int, rate: int) -> int {
    shares * rate / (PRECISION as int)
}

/// `a - b`, but never under zero.
pub open spec fn clamped_sub(a: int, b: int) -> int {
    if a >= b {
        a - b
    } else {
        0
    }
}

/// An executable result says what the specification says.
pub open spec fn agrees(r: Result<i128, Error>, outcome: Result<int, Error>) -> bool {
    match r {
        Ok(x) => outcome == Ok::<int, Error>(x as int),
        Err(e) => outcome == Err::<int, Error>(e),
    }
}

/// Computes `a * b / d` rounded toward zero.
pub fn checked_mul_div(a: i128, b: i128, d: i128) -> (r: Result<i128, Error>)
    requires
        0 <= d,
    ensures
        agrees(r, mul_div(a as int, b as int, d as int)),
{
    let product = match a.checked_mul(b) {
        Some(p) => p,
        None => { return Err(Error::Overflow); },
    };
    match product.checked_div(d) {
        Some(q) => Ok(q),
        None => Err(Error::DivisionError),
    }
}

/// Computes `a - b`, but never under zero, for amounts that are not negative.
pub fn saturating_reduce(a: i128, b: i128) -> (r: i128)
    requires
        0 <= a,
        0 <= b,
    ensures
        r == clamped_sub(a as int, b as int),
{
    if a >= b {
        a - b
    } else {
        0
    }
}

/// Rounding down loses less than one divisor.
pub proof fn lemma_floor_bounds(x: int, d: int)
    requires
        d > 0,
    ensures
        (x / d) * d <= x < (x / d) * d + d,
{
    lemma_fundamental_div_mod(x, d);
    lemma_mod_bound(x, d);
    assert(d * (x / d) == (x / d) * d) by (nonlinear_arith);
}

/// Whatever fits `d` times into `x` is at most the quotient.
pub proof fn lemma_floor_at_least(x: int, d: int, q: int)
    requires
        d > 0,
        q * d <= x,
    ensures
        q <= x / d,
{
    lemma_floor_bounds(x, d);
    assert(q <= x / d) by (nonlinear_arith)
        requires
            d > 0,
            q * d <= x,
            x < (x / d) * d + d,
    ;
}

/// The quotient is at most whatever `x` stays under `d` times its successor.
pub proof fn lemma_floor_at_most(x: int, d: int, q: int)
    requires
        d > 0,
        x < (q + 1) * d,
    ensures
        x / d <= q,
{
    lemma_floor_bounds(x, d);
    assert(x / d <= q) by (nonlinear_arith)
        requires
            d > 0,
            x < (q + 1) * d,
            (x / d) * d <= x,
    ;
}

/// With no share outstanding the exchange rate is exactly `PRECISION`.
pub proof fn lemma_rate_without_supply(total_assets: int)
    ensures
        rate_of(total_assets, 0) == PRECISION,
{
}

/// The exchange rate is never negative.
pub proof fn lemma_rate_nonnegative(total_assets: int, supply: int)
    requires
        0 <= total_assets,
        0 <= supply,
    ensures
        0 <= rate_of(total_assets, supply),
{
    if supply > 0 {
        lemma_floor_at_least(total_assets * PRECISION, supply, 0);
    }
}

/// More assets behind the same supply never lower the exchange rate: yield
/// can only lift it.
pub proof fn lemma_rate_grows_with_assets(assets: int, more: int, supply: int)
    requires
        0 <= assets <= more,
        0 <= supply,
    ensures
        rate_of(assets, supply) <= rate_of(more, supply),
{
    if supply > 0 {
        lemma_floor_bounds(assets * PRECISION, supply);
        lemma_floor_at_least(more * PRECISION, supply, assets * PRECISION / supply);
    }
}

/// A deposit never lowers the exchange rate: the shares it mints are rounded
/// down, so what is lost to rounding stays with the vault.
pub proof fn lemma_deposit_keeps_rate(assets: int, supply: int, amount: int)
    requires
        0 <= assets,
        0 <= supply,
        0 <= amount,
        rate_of(assets, supply) > 0,
    ensures
        ({
            let rate = rate_of(assets, supply);
            let shares = shares_for(amount, rate);
            0 <= shares && rate <= rate_of(assets + amount, supply + shares)
        }),
{
    let rate = rate_of(assets, supply);
    let shares = shares_for(amount, rate);
    lemma_floor_bounds(amount * PRECISION, rate);
    lemma_floor_at_least(amount * PRECISION, rate, 0);
    if supply + shares > 0 {
        if supply > 0 {
            lemma_floor_bounds(assets * PRECISION, supply);
        }
        assert(rate * (supply + shares) <= (assets + amount) * PRECISION) by (nonlinear_arith)
            requires
                supply > 0 ==> rate * supply <= assets * PRECISION,
                supply >= 0,
                assets >= 0,
                shares * rate <= amount * PRECISION,
        ;
        lemma_floor_at_least((assets + amount) * PRECISION, supply + shares, rate);
    }
}

/// Redeeming shares never lowers the exchange rate while shares remain: the
/// principal paid out is rounded down.
pub proof fn lemma_withdrawal_keeps_rate(assets: int, supply: int, shares: int)
    requires
        0 <= assets,
        0 <= shares < supply,
    ensures
        ({
            let rate = rate_of(assets, supply);
            let principal = principal_for(shares, rate);
            0 <= principal <= assets && rate <= rate_of(assets - principal, supply - shares)
        }),
{
    let rate = rate_of(assets, supply);
    let principal = principal_for(shares, rate);
    lemma_principal_at_most_assets(assets, supply, shares);
    lemma_floor_bounds(assets * PRECISION, supply);
    lemma_floor_bounds(shares * rate, PRECISION as int);
    assert(rate * (supply - shares) <= (assets - principal) * PRECISION) by (nonlinear_arith)
        requires
            rate * supply <= assets * PRECISION,
            principal * PRECISION <= shares * rate,
    ;
    lemma_floor_at_least((assets - principal) * PRECISION, supply - shares, rate);
}

/// Shares never redeem more than the vault holds: a part of the supply is
/// worth at most all the assets.
pub proof fn lemma_principal_at_most_assets(assets: int, supply: int, shares: int)
    requires
        0 <= assets,
        0 <= shares <= supply,
        0 < supply,
    ensures
        0 <= principal_for(shares, rate_of(assets, supply)) <= assets,
{
    let rate = rate_of(assets, supply);
    lemma_rate_nonnegative(assets, supply);
    lemma_floor_bounds(assets * PRECISION, supply);
    assert(0 <= shares * rate <= assets * PRECISION) by (nonlinear_arith)
        requires
            0 <= shares <= supply,
            0 <= rate,
            rate * supply <= assets * PRECISION,
    ;
    lemma_floor_at_least(shares * rate, PRECISION as int, 0);
    lemma_floor_at_most(shares * rate, PRECISION as int, assets);
}

/// Round trip: whoever deposits `amount` and at once redeems all the shares
/// it bought gets back at most `amount`, and loses less than one share's
/// worth of principal plus one unit to the two roundings. The vault must
/// either have shares outstanding or hold no assets: assets that belong to
/// no share would go to the first depositor.
pub proof fn lemma_round_trip(assets: int, supply: int, amount: int)
    requires
        0 <= assets,
        0 <= supply,
        0 <= amount,
        supply > 0 || assets == 0,
        rate_of(assets, supply) > 0,
    ensures
        ({
            let rate = rate_of(assets, supply);
            let shares = shares_for(amount, rate);
            let back = principal_for(shares, rate_of(assets + amount, supply + shares));
            &&& back <= amount
            &&& (amount - back) * PRECISION < rate + PRECISION
        }),
{
    let rate = rate_of(assets, supply);
    let shares = shares_for(amount, rate);
    let after = rate_of(assets + amount, supply + shares);
    let back = principal_for(shares, after);
    lemma_deposit_keeps_rate(assets, supply, amount);
    lemma_floor_bounds(amount * PRECISION, rate);
    // What the shares are worth afterwards does not exceed what was paid.
    assert(shares * after <= amount * PRECISION) by {
        if supply + shares == 0 {
            assert(shares * after == 0) by (nonlinear_arith)
                requires
                    shares == 0,
            ;
        } else if supply == 0 {
            lemma_floor_bounds((assets + amount) * PRECISION, supply + shares);
            assert(shares * after <= amount * PRECISION) by (nonlinear_arith)
                requires
                    after * shares <= amount * PRECISION,
            ;
        } else {
            lemma_floor_bounds(assets * PRECISION, supply);
            lemma_floor_bounds((assets + amount) * PRECISION, supply + shares);
            let e = assets * PRECISION - rate * supply;
            let f = amount * PRECISION - shares * rate;
            let k = after - rate;
            assert(k * (supply + shares) <= e + f) by (nonlinear_arith)
                requires
                    after * (supply + shares) <= (assets + amount) * PRECISION,
                    e == assets * PRECISION - rate * supply,
                    f == amount * PRECISION - shares * rate,
                    k == after - rate,
            ;
            assert(k * shares <= f) by (nonlinear_arith)
                requires
                    k * (supply + shares) <= e + f,
                    0 <= e < supply,
                    0 <= f,
                    0 <= k,
                    0 <= shares,
            ;
            assert(shares * after <= amount * PRECISION) by (nonlinear_arith)
                requires
                    k * shares <= f,
                    f == amount * PRECISION - shares * rate,
                    k == after - rate,
            ;
        }
    }
    lemma_floor_at_most(shares * after, PRECISION as int, amount);
    // And it falls short by less than a share's worth and a unit.
    lemma_floor_bounds(shares * after, PRECISION as int);
    assert(shares * rate <= shares * after) by (nonlinear_arith)
        requires
            rate <= after,
            0 <= shares,
    ;
}

} // verus!
