//! The arithmetic of the exchange: collateral ratio, total value locked,
//! net asset values and the ceilings on new stablecoin.
//!
//! Collateral, values in USD, ratios and net asset values carry nine
//! fractional digits, token amounts six, oracle prices eight. Every
//! function is pure; every step is a 128-bit product followed by a division
//! that rounds down, and an error is returned where a step has no result.

use crate::error::CoreError;
use crate::fixed_point::{floor_mul_div, floor_mul_div_spec, UFix64, UNIT_6, UNIT_8, UNIT_9};
use crate::pyth::PriceRange;
use vstd::prelude::*;

verus! {

/// Collateral times price: the value locked, in USD.
pub open spec fn total_value_locked_spec(total_sol: UFix64<9>, sol_usd_price: UFix64<8>) -> Result<
    UFix64<9>,
    CoreError,
> {
    UFix64::<9>::lift_result(
        floor_mul_div_spec(total_sol.bits as int, sol_usd_price.bits as int, UNIT_8 as int),
    )
}

/// A value in USD divided by a token supply: the value behind one token.
pub open spec fn value_per_token_spec(value: UFix64<9>, supply: UFix64<6>) -> Result<
    UFix64<9>,
    CoreError,
> {
    UFix64::<9>::lift_result(
        floor_mul_div_spec(value.bits as int, UNIT_6 as int, supply.bits as int),
    )
}

/// A token amount times a net asset value: what the amount is worth in USD.
pub open spec fn token_value_spec(amount: UFix64<6>, nav: UFix64<9>) -> Result<
    UFix64<9>,
    CoreError,
> {
    UFix64::<9>::lift_result(floor_mul_div_spec(amount.bits as int, nav.bits as int, UNIT_6 as int))
}

/// Total value locked over stablecoin supply.
pub open spec fn collateral_ratio_spec(
    total_sol: UFix64<9>,
    sol_usd_price: UFix64<8>,
    stablecoin_supply: UFix64<6>,
) -> Result<UFix64<9>, CoreError> {
    match total_value_locked_spec(total_sol, sol_usd_price) {
        Ok(tvl) => value_per_token_spec(tvl, stablecoin_supply),
        Err(e) => Err(e),
    }
}

/// What is left of the value locked once every stablecoin is covered at its
/// net asset value, over the levercoin supply.
pub open spec fn levercoin_nav_spec(
    total_sol: UFix64<9>,
    sol_usd_price: UFix64<8>,
    stablecoin_supply: UFix64<6>,
    stablecoin_nav: UFix64<9>,
    levercoin_supply: UFix64<6>,
) -> Result<UFix64<9>, CoreError> {
    match total_value_locked_spec(total_sol, sol_usd_price) {
        Err(e) => Err(e),
        Ok(tvl) => match token_value_spec(stablecoin_supply, stablecoin_nav) {
            Err(e) => Err(e),
            Ok(stablecoin_cap) => if tvl.bits < stablecoin_cap.bits {
                Err(CoreError::ArithmeticUnderflow)
            } else {
                value_per_token_spec(
                    UFix64::<9> { bits: (tvl.bits - stablecoin_cap.bits) as u64 },
                    levercoin_supply,
                )
            },
        },
    }
}

/// Whether the collateral ratio is still at or above `threshold` once
/// `minted` more stablecoin exists and its value has joined the collateral:
/// `(tvl + minted) / (supply + minted) >= threshold`, with `tvl` and
/// `threshold` as bits of nine digits and the two amounts as bits of six.
pub open spec fn ratio_holds_after_mint(tvl: int, supply: int, minted: int, threshold: int) -> bool {
    UNIT_6 * (tvl + 1000 * minted) >= threshold * (supply + minted)
}

/// Whether the collateral ratio is still at or above `threshold` once
/// `swapped` more stablecoin exists and the value locked is unchanged:
/// `tvl / (supply + swapped) >= threshold`, with `tvl` and `threshold` as
/// bits of nine digits and the two amounts as bits of six.
pub open spec fn ratio_holds_after_swap(tvl: int, supply: int, swapped: int, threshold: int) -> bool {
    UNIT_6 * tvl >= threshold * (supply + swapped)
}

/// The mint ceiling over a value locked that is already known:
/// `(tvl - threshold * supply) / (threshold - 1)`, rounded down.
pub open spec fn max_mintable_from_tvl_spec(
    threshold: UFix64<9>,
    tvl: UFix64<9>,
    stablecoin_supply: UFix64<6>,
) -> Result<UFix64<6>, CoreError> {
    if threshold.bits == UNIT_9 {
        Err(CoreError::DivisionByZero)
    } else if threshold.bits < UNIT_9 {
        Err(CoreError::ArithmeticUnderflow)
    } else if UNIT_6 * tvl.bits < threshold.bits * stablecoin_supply.bits {
        Err(CoreError::ArithmeticUnderflow)
    } else if (UNIT_6 * tvl.bits - threshold.bits * stablecoin_supply.bits) / (threshold.bits
        - UNIT_9) > u64::MAX {
        Err(CoreError::ArithmeticOverflow)
    } else {
        Ok(
            UFix64::<6> {
                bits: ((UNIT_6 * tvl.bits - threshold.bits * stablecoin_supply.bits) / (
                threshold.bits - UNIT_9)) as u64,
            },
        )
    }
}

/// The most stablecoin that can still be minted before the collateral
/// ratio, with the collateral valued at `sol_usd_price`, falls under
/// `threshold`.
pub open spec fn max_mintable_stablecoin_spec(
    threshold: UFix64<9>,
    total_sol: UFix64<9>,
    sol_usd_price: UFix64<8>,
    stablecoin_supply: UFix64<6>,
) -> Result<UFix64<6>, CoreError> {
    match total_value_locked_spec(total_sol, sol_usd_price) {
        Ok(tvl) => max_mintable_from_tvl_spec(threshold, tvl, stablecoin_supply),
        Err(e) => Err(e),
    }
}

/// The most stablecoin that a swap can still add: the largest total supply
/// that `tvl` carries at `threshold`, less the supply that exists.
pub open spec fn max_swappable_stablecoin_spec(
    threshold: UFix64<9>,
    tvl: UFix64<9>,
    stablecoin_supply: UFix64<6>,
) -> Result<UFix64<6>, CoreError> {
    match floor_mul_div_spec(tvl.bits as int, UNIT_6 as int, threshold.bits as int) {
        Err(e) => Err(e),
        Ok(largest_supply) => if largest_supply < stablecoin_supply.bits {
            Err(CoreError::ArithmeticUnderflow)
        } else {
            Ok(UFix64::<6> { bits: (largest_supply - stablecoin_supply.bits) as u64 })
        },
    }
}

/// Total value locked in USD: the collateral at the given price, rounded
/// down to nine digits.
pub fn total_value_locked(total_sol: UFix64<9>, sol_usd_price: UFix64<8>) -> (r: Result<
    UFix64<9>,
    CoreError,
>)
    ensures
        r == total_value_locked_spec(total_sol, sol_usd_price),
{
    match floor_mul_div(total_sol.bits, sol_usd_price.bits, UNIT_8) {
        Ok(bits) => Ok(UFix64::new(bits)),
        Err(e) => Err(e),
    }
}

/// The value in USD behind one token of a supply.
pub fn value_per_token(value: UFix64<9>, supply: UFix64<6>) -> (r: Result<UFix64<9>, CoreError>)
    ensures
        r == value_per_token_spec(value, supply),
{
    match floor_mul_div(value.bits, UNIT_6, supply.bits) {
        Ok(bits) => Ok(UFix64::new(bits)),
        Err(e) => Err(e),
    }
}

/// The value in USD of a token amount at a net asset value.
pub fn token_value(amount: UFix64<6>, nav: UFix64<9>) -> (r: Result<UFix64<9>, CoreError>)
    ensures
        r == token_value_spec(amount, nav),
{
    match floor_mul_div(amount.bits, nav.bits, UNIT_6) {
        Ok(bits) => Ok(UFix64::new(bits)),
        Err(e) => Err(e),
    }
}

/// The collateral ratio: total value locked over stablecoin supply. Fails
/// on overflow and on a supply of zero.
pub fn collateral_ratio(
    total_sol: UFix64<9>,
    sol_usd_price: UFix64<8>,
    stablecoin_supply: UFix64<6>,
) -> (r: Result<UFix64<9>, CoreError>)
    ensures
        r == collateral_ratio_spec(total_sol, sol_usd_price, stablecoin_supply),
{
    let tvl = total_value_locked(total_sol, sol_usd_price)?;
    value_per_token(tvl, stablecoin_supply)
}

/// The net asset value of the stablecoin once the system is
/// undercollateralized: total value locked over stablecoin supply.
pub fn depeg_stablecoin_nav(
    total_sol: UFix64<9>,
    sol_usd_price: UFix64<8>,
    stablecoin_supply: UFix64<6>,
) -> (r: Result<UFix64<9>, CoreError>)
    ensures
        r == collateral_ratio_spec(total_sol, sol_usd_price, stablecoin_supply),
{
    let tvl = total_value_locked(total_sol, sol_usd_price)?;
    value_per_token(tvl, stablecoin_supply)
}

/// The levercoin net asset value at one price.
fn levercoin_nav(
    total_sol: UFix64<9>,
    sol_usd_price: UFix64<8>,
    stablecoin_supply: UFix64<6>,
    stablecoin_nav: UFix64<9>,
    levercoin_supply: UFix64<6>,
) -> (r: Result<UFix64<9>, CoreError>)
    ensures
        r == levercoin_nav_spec(
            total_sol,
            sol_usd_price,
            stablecoin_supply,
            stablecoin_nav,
            levercoin_supply,
        ),
{
    let tvl = total_value_locked(total_sol, sol_usd_price)?;
    let stablecoin_cap = token_value(stablecoin_supply, stablecoin_nav)?;
    match tvl.checked_sub(&stablecoin_cap) {
        Some(levercoin_cap) => value_per_token(levercoin_cap, levercoin_supply),
        None => Err(CoreError::ArithmeticUnderflow),
    }
}

/// The levercoin net asset value charged to a minter: the collateral is
/// valued at the upper bound of the price.
pub fn next_levercoin_mint_nav(
    total_sol: UFix64<9>,
    sol_usd_price: PriceRange<8>,
    stablecoin_supply: UFix64<6>,
    stablecoin_nav: UFix64<9>,
    levercoin_supply: UFix64<6>,
) -> (r: Result<UFix64<9>, CoreError>)
    ensures
        r == levercoin_nav_spec(
            total_sol,
            sol_usd_price.upper,
            stablecoin_supply,
            stablecoin_nav,
            levercoin_supply,
        ),
{
    levercoin_nav(
        total_sol,
        sol_usd_price.upper,
        stablecoin_supply,
        stablecoin_nav,
        levercoin_supply,
    )
}

/// The levercoin net asset value paid to a redeemer: the collateral is
/// valued at the lower bound of the price.
pub fn next_levercoin_redeem_nav(
    total_sol: UFix64<9>,
    sol_usd_price: PriceRange<8>,
    stablecoin_supply: UFix64<6>,
    stablecoin_nav: UFix64<9>,
    levercoin_supply: UFix64<6>,
) -> (r: Result<UFix64<9>, CoreError>)
    ensures
        r == levercoin_nav_spec(
            total_sol,
            sol_usd_price.lower,
            stablecoin_supply,
            stablecoin_nav,
            levercoin_supply,
        ),
{
    levercoin_nav(
        total_sol,
        sol_usd_price.lower,
        stablecoin_supply,
        stablecoin_nav,
        levercoin_supply,
    )
}

/// The most stablecoin that can still be minted before the collateral ratio
/// falls under `threshold`. The threshold must lie above 1.0, and the ratio
/// must not already be under it.
pub fn max_mintable_stablecoin(
    threshold: UFix64<9>,
    total_sol: UFix64<9>,
    sol_usd_price: UFix64<8>,
    stablecoin_supply: UFix64<6>,
) -> (r: Result<UFix64<6>, CoreError>)
    ensures
        r == max_mintable_stablecoin_spec(threshold, total_sol, sol_usd_price, stablecoin_supply),
        r is Ok ==> ratio_holds_after_mint(
            total_value_locked_spec(total_sol, sol_usd_price)->Ok_0.bits as int,
            stablecoin_supply.bits as int,
            r->Ok_0.bits as int,
            threshold.bits as int,
        ),
        r is Ok ==> !ratio_holds_after_mint(
            total_value_locked_spec(total_sol, sol_usd_price)->Ok_0.bits as int,
            stablecoin_supply.bits as int,
            r->Ok_0.bits + 1,
            threshold.bits as int,
        ),
{
    let tvl = total_value_locked(total_sol, sol_usd_price)?;
    proof {
        if max_mintable_from_tvl_spec(threshold, tvl, stablecoin_supply) is Ok {
            lemma_max_mintable_reaches_threshold(threshold, tvl, stablecoin_supply);
        }
    }
    if threshold.bits == UNIT_9 {
        return Err(CoreError::DivisionByZero);
    }
    if threshold.bits < UNIT_9 {
        return Err(CoreError::ArithmeticUnderflow);
    }
    assert(threshold.bits * stablecoin_supply.bits <= 0xFFFF_FFFF_FFFF_FFFF
        * 0xFFFF_FFFF_FFFF_FFFF) by (nonlinear_arith)
        requires
            threshold.bits <= 0xFFFF_FFFF_FFFF_FFFF,
            stablecoin_supply.bits <= 0xFFFF_FFFF_FFFF_FFFF,
    ;
    let covered: u128 = (threshold.bits as u128) * (stablecoin_supply.bits as u128);
    assert(UNIT_6 * tvl.bits <= 1_000_000 * 0xFFFF_FFFF_FFFF_FFFF) by (nonlinear_arith)
        requires
            UNIT_6 == 1_000_000,
            tvl.bits <= 0xFFFF_FFFF_FFFF_FFFF,
    ;
    let value: u128 = (UNIT_6 as u128) * (tvl.bits as u128);
    if value < covered {
        return Err(CoreError::ArithmeticUnderflow);
    }
    let margin: u128 = (threshold.bits - UNIT_9) as u128;
    let mintable: u128 = (value - covered) / margin;
    if mintable > u64::MAX as u128 {
        Err(CoreError::ArithmeticOverflow)
    } else {
        Ok(UFix64::new(mintable as u64))
    }
}

/// The most stablecoin that a swap from levercoin can still add before the
/// collateral ratio falls under `threshold`, the value locked unchanged.
pub fn max_swappable_stablecoin(
    threshold: UFix64<9>,
    total_value_locked: UFix64<9>,
    stablecoin_supply: UFix64<6>,
) -> (r: Result<UFix64<6>, CoreError>)
    ensures
        r == max_swappable_stablecoin_spec(threshold, total_value_locked, stablecoin_supply),
        r is Ok ==> ratio_holds_after_swap(
            total_value_locked.bits as int,
            stablecoin_supply.bits as int,
            r->Ok_0.bits as int,
            threshold.bits as int,
        ),
        r is Ok ==> !ratio_holds_after_swap(
            total_value_locked.bits as int,
            stablecoin_supply.bits as int,
            r->Ok_0.bits + 1,
            threshold.bits as int,
        ),
{
    proof {
        if max_swappable_stablecoin_spec(threshold, total_value_locked, stablecoin_supply) is Ok {
            lemma_max_swappable_reaches_threshold(threshold, total_value_locked, stablecoin_supply);
        }
    }
    let largest_supply = floor_mul_div(total_value_locked.bits, UNIT_6, threshold.bits)?;
    if largest_supply < stablecoin_supply.bits {
        Err(CoreError::ArithmeticUnderflow)
    } else {
        Ok(UFix64::new(largest_supply - stablecoin_supply.bits))
    }
}

/// The mint ceiling is the largest amount that keeps the ratio at the
/// threshold: minting it holds the ratio, minting one unit more breaks it.
pub proof fn lemma_max_mintable_reaches_threshold(
    threshold: UFix64<9>,
    tvl: UFix64<9>,
    stablecoin_supply: UFix64<6>,
)
    requires
        max_mintable_from_tvl_spec(threshold, tvl, stablecoin_supply) is Ok,
    ensures
        ratio_holds_after_mint(
            tvl.bits as int,
            stablecoin_supply.bits as int,
            max_mintable_from_tvl_spec(threshold, tvl, stablecoin_supply)->Ok_0.bits as int,
            threshold.bits as int,
        ),
        !ratio_holds_after_mint(
            tvl.bits as int,
            stablecoin_supply.bits as int,
            max_mintable_from_tvl_spec(threshold, tvl, stablecoin_supply)->Ok_0.bits + 1,
            threshold.bits as int,
        ),
{
    let c = threshold.bits as int;
    let t = tvl.bits as int;
    let s = stablecoin_supply.bits as int;
    let n = UNIT_6 * t - c * s;
    let d = c - UNIT_9;
    let m = n / d;
    lemma_floor_division(n, d);
    assert(c * (s + m) == c * s + c * m) by (nonlinear_arith);
    assert(c * (s + (m + 1)) == c * s + c * (m + 1)) by (nonlinear_arith);
    assert(d * m == c * m - UNIT_9 * m) by (nonlinear_arith)
        requires
            d == c - UNIT_9,
    ;
    assert(d * (m + 1) == c * (m + 1) - UNIT_9 * (m + 1)) by (nonlinear_arith)
        requires
            d == c - UNIT_9,
    ;
}

/// The swap ceiling is the largest amount that keeps the ratio at the
/// threshold: swapping it in holds the ratio, one unit more breaks it.
pub proof fn lemma_max_swappable_reaches_threshold(
    threshold: UFix64<9>,
    tvl: UFix64<9>,
    stablecoin_supply: UFix64<6>,
)
    requires
        max_swappable_stablecoin_spec(threshold, tvl, stablecoin_supply) is Ok,
    ensures
        ratio_holds_after_swap(
            tvl.bits as int,
            stablecoin_supply.bits as int,
            max_swappable_stablecoin_spec(threshold, tvl, stablecoin_supply)->Ok_0.bits as int,
            threshold.bits as int,
        ),
        !ratio_holds_after_swap(
            tvl.bits as int,
            stablecoin_supply.bits as int,
            max_swappable_stablecoin_spec(threshold, tvl, stablecoin_supply)->Ok_0.bits + 1,
            threshold.bits as int,
        ),
{
    let c = threshold.bits as int;
    let n = UNIT_6 * tvl.bits;
    lemma_floor_division(n, c);
}

/// Any amount within the mint ceiling keeps the ratio at the threshold.
pub proof fn lemma_mint_within_ceiling_holds_ratio(
    threshold: UFix64<9>,
    tvl: UFix64<9>,
    stablecoin_supply: UFix64<6>,
    minted: UFix64<6>,
)
    requires
        max_mintable_from_tvl_spec(threshold, tvl, stablecoin_supply) is Ok,
        minted.bits <= max_mintable_from_tvl_spec(threshold, tvl, stablecoin_supply)->Ok_0.bits,
    ensures
        ratio_holds_after_mint(
            tvl.bits as int,
            stablecoin_supply.bits as int,
            minted.bits as int,
            threshold.bits as int,
        ),
{
    let c = threshold.bits as int;
    let s = stablecoin_supply.bits as int;
    let max = max_mintable_from_tvl_spec(threshold, tvl, stablecoin_supply)->Ok_0.bits as int;
    let m = minted.bits as int;
    lemma_max_mintable_reaches_threshold(threshold, tvl, stablecoin_supply);
    let t = tvl.bits as int;
    assert(1_000_000 * (t + 1000 * max) >= c * (s + max));
    assert(c * (s + max) - 1_000_000_000 * max >= c * (s + m) - 1_000_000_000 * m)
        by (nonlinear_arith)
        requires
            m <= max,
            c > 1_000_000_000,
    ;
    assert(1_000_000 * (t + 1000 * m) >= c * (s + m));
}

/// Any amount within the swap ceiling keeps the ratio at the threshold.
pub proof fn lemma_swap_within_ceiling_holds_ratio(
    threshold: UFix64<9>,
    tvl: UFix64<9>,
    stablecoin_supply: UFix64<6>,
    swapped: UFix64<6>,
)
    requires
        max_swappable_stablecoin_spec(threshold, tvl, stablecoin_supply) is Ok,
        swapped.bits <= max_swappable_stablecoin_spec(threshold, tvl, stablecoin_supply)->Ok_0.bits,
    ensures
        ratio_holds_after_swap(
            tvl.bits as int,
            stablecoin_supply.bits as int,
            swapped.bits as int,
            threshold.bits as int,
        ),
{
    let c = threshold.bits as int;
    let s = stablecoin_supply.bits as int;
    let max = max_swappable_stablecoin_spec(threshold, tvl, stablecoin_supply)->Ok_0.bits as int;
    let m = swapped.bits as int;
    lemma_max_swappable_reaches_threshold(threshold, tvl, stablecoin_supply);
    assert(c * (s + m) <= c * (s + max)) by (nonlinear_arith)
        requires
            m <= max,
            0 <= c,
    ;
}

/// A larger dividend does not give a smaller quotient.
pub proof fn lemma_floor_monotonic(a: int, b: int, n: int, d: int)
    requires
        0 <= a <= b,
        0 <= n,
        0 < d,
    ensures
        a * n / d <= b * n / d,
{
    assert(a * n <= b * n) by (nonlinear_arith)
        requires
            a <= b,
            0 <= n,
    ;
    assert(a * n / d <= b * n / d) by (nonlinear_arith)
        requires
            a * n <= b * n,
            0 < d,
    ;
}

/// The levercoin is worth no less with the collateral at a higher price:
/// the value paid to a redeemer never passes the value charged to a minter.
pub proof fn lemma_levercoin_nav_monotonic(
    total_sol: UFix64<9>,
    lower: UFix64<8>,
    upper: UFix64<8>,
    stablecoin_supply: UFix64<6>,
    stablecoin_nav: UFix64<9>,
    levercoin_supply: UFix64<6>,
)
    requires
        lower.bits <= upper.bits,
        levercoin_nav_spec(total_sol, lower, stablecoin_supply, stablecoin_nav, levercoin_supply)
            is Ok,
        levercoin_nav_spec(total_sol, upper, stablecoin_supply, stablecoin_nav, levercoin_supply)
            is Ok,
    ensures
        levercoin_nav_spec(
            total_sol,
            lower,
            stablecoin_supply,
            stablecoin_nav,
            levercoin_supply,
        )->Ok_0.bits <= levercoin_nav_spec(
            total_sol,
            upper,
            stablecoin_supply,
            stablecoin_nav,
            levercoin_supply,
        )->Ok_0.bits,
{
    let cap = token_value_spec(stablecoin_supply, stablecoin_nav)->Ok_0.bits as int;
    let tvl_lower = total_value_locked_spec(total_sol, lower)->Ok_0.bits as int;
    let tvl_upper = total_value_locked_spec(total_sol, upper)->Ok_0.bits as int;
    assert(total_sol.bits * lower.bits <= total_sol.bits * upper.bits) by (nonlinear_arith)
        requires
            lower.bits <= upper.bits,
            0 <= total_sol.bits,
    ;
    assert(tvl_lower <= tvl_upper) by (nonlinear_arith)
        requires
            total_sol.bits * lower.bits <= total_sol.bits * upper.bits,
            tvl_lower == total_sol.bits * lower.bits / (UNIT_8 as int),
            tvl_upper == total_sol.bits * upper.bits / (UNIT_8 as int),
            UNIT_8 == 100_000_000,
    ;
    lemma_floor_monotonic(
        tvl_lower - cap,
        tvl_upper - cap,
        UNIT_6 as int,
        levercoin_supply.bits as int,
    );
}

/// A quotient rounded down, times the divisor, is the largest multiple of
/// the divisor within the dividend.
pub proof fn lemma_floor_division(n: int, d: int)
    requires
        0 <= n,
        0 < d,
    ensures
        0 <= n / d,
        d * (n / d) <= n < d * (n / d + 1),
{
    assert(0 <= n / d && d * (n / d) <= n && n < d * (n / d + 1)) by (nonlinear_arith)
        requires
            0 <= n,
            0 < d,
    ;
}

} // verus!
