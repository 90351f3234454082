//! The accounting of the stability pool: what the pool is worth, what a
//! share is worth, and what a share withdraws.

use crate::error::CoreError;
use crate::fee_controller::FeeExtract;
use crate::fixed_point::{
    ceil_mul_div,
    ceil_mul_div_spec,
    floor_mul_div,
    floor_mul_div_spec,
    UFix64,
    UNIT_9,
};
use vstd::prelude::*;

verus! {

/// What an amount of a token is worth at a net asset value, in USD of six
/// digits, rounded down.
pub open spec fn token_cap_spec(nav: UFix64<9>, amount: UFix64<6>) -> Result<u64, CoreError> {
    floor_mul_div_spec(amount.bits as int, nav.bits as int, UNIT_9 as int)
}

/// The value of the pool: its stablecoin at the stablecoin's net asset
/// value plus its levercoin at the levercoin's.
pub open spec fn stability_pool_cap_spec(
    stablecoin_nav: UFix64<9>,
    stablecoin_in_pool: UFix64<6>,
    levercoin_nav: UFix64<9>,
    levercoin_in_pool: UFix64<6>,
) -> Result<UFix64<6>, CoreError> {
    match token_cap_spec(stablecoin_nav, stablecoin_in_pool) {
        Err(e) => Err(e),
        Ok(stablecoin_cap) => match token_cap_spec(levercoin_nav, levercoin_in_pool) {
            Err(e) => Err(e),
            Ok(levercoin_cap) => if stablecoin_cap + levercoin_cap > u64::MAX {
                Err(CoreError::ArithmeticOverflow)
            } else {
                Ok(UFix64::<6> { bits: (stablecoin_cap + levercoin_cap) as u64 })
            },
        },
    }
}

/// The value of one pool share: the value of the pool over the share
/// supply.
pub open spec fn lp_token_nav_spec(
    stablecoin_nav: UFix64<9>,
    stablecoin_in_pool: UFix64<6>,
    levercoin_nav: UFix64<9>,
    levercoin_in_pool: UFix64<6>,
    lp_token_supply: UFix64<6>,
) -> Result<UFix64<9>, CoreError> {
    match stability_pool_cap_spec(
        stablecoin_nav,
        stablecoin_in_pool,
        levercoin_nav,
        levercoin_in_pool,
    ) {
        Err(e) => Err(e),
        Ok(cap) => UFix64::<9>::lift_result(
            floor_mul_div_spec(cap.bits as int, UNIT_9 as int, lp_token_supply.bits as int),
        ),
    }
}

/// The shares that a deposit buys: the amount over the value of a share.
pub open spec fn lp_token_out_spec(amount_in: UFix64<6>, lp_token_nav: UFix64<9>) -> Result<
    UFix64<6>,
    CoreError,
> {
    UFix64::<6>::lift_result(
        floor_mul_div_spec(amount_in.bits as int, UNIT_9 as int, lp_token_nav.bits as int),
    )
}

/// The pro-rata part of a pool balance that a number of shares withdraws.
pub open spec fn amount_token_to_withdraw_spec(
    lp_token_in: UFix64<6>,
    lp_token_supply: UFix64<6>,
    pool_balance: UFix64<6>,
) -> Result<UFix64<6>, CoreError> {
    UFix64::<6>::lift_result(
        floor_mul_div_spec(
            lp_token_in.bits as int,
            pool_balance.bits as int,
            lp_token_supply.bits as int,
        ),
    )
}

/// The withdrawal fee, charged in stablecoin on the value of both tokens
/// withdrawn: the fee rate times that value, rounded up, turned into
/// stablecoin at its net asset value, rounded up, and taken from the
/// stablecoin withdrawn. The stablecoin withdrawn must not pass what the
/// pool holds.
pub open spec fn stablecoin_withdrawal_fee_spec(
    stablecoin_in_pool: UFix64<6>,
    stablecoin_to_withdraw: UFix64<6>,
    stablecoin_nav: UFix64<9>,
    levercoin_to_withdraw: UFix64<6>,
    levercoin_nav: UFix64<9>,
    withdrawal_fee: UFix64<4>,
) -> Result<FeeExtract<6>, CoreError> {
    if stablecoin_to_withdraw.bits > stablecoin_in_pool.bits {
        Err(CoreError::ArithmeticUnderflow)
    } else {
        withdrawal_fee_split_spec(
            stablecoin_to_withdraw,
            stablecoin_nav,
            levercoin_to_withdraw,
            levercoin_nav,
            withdrawal_fee,
        )
    }
}

/// The split of a withdrawal that the pool can pay: the fee on the value of
/// both tokens, in stablecoin, and the stablecoin that is left.
pub open spec fn withdrawal_fee_split_spec(
    stablecoin_to_withdraw: UFix64<6>,
    stablecoin_nav: UFix64<9>,
    levercoin_to_withdraw: UFix64<6>,
    levercoin_nav: UFix64<9>,
    withdrawal_fee: UFix64<4>,
) -> Result<FeeExtract<6>, CoreError> {
    match stability_pool_cap_spec(
        stablecoin_nav,
        stablecoin_to_withdraw,
        levercoin_nav,
        levercoin_to_withdraw,
    ) {
        Err(e) => Err(e),
        Ok(value) => match FeeExtract::<6>::new_spec(withdrawal_fee, value) {
            Err(e) => Err(e),
            Ok(of_value) => match ceil_mul_div_spec(
                of_value.fees_extracted.bits as int,
                UNIT_9 as int,
                stablecoin_nav.bits as int,
            ) {
                Err(e) => Err(e),
                Ok(fee) => if fee > stablecoin_to_withdraw.bits {
                    Err(CoreError::ArithmeticUnderflow)
                } else {
                    Ok(
                        FeeExtract::<6> {
                            fees_extracted: UFix64::<6> { bits: fee },
                            amount_remaining: UFix64::<6> {
                                bits: (stablecoin_to_withdraw.bits - fee) as u64,
                            },
                        },
                    )
                },
            },
        },
    }
}

fn token_cap(nav: UFix64<9>, amount: UFix64<6>) -> (r: Result<u64, CoreError>)
    ensures
        r == token_cap_spec(nav, amount),
{
    floor_mul_div(amount.bits, nav.bits, UNIT_9)
}

/// The total value of the stablecoin and the levercoin in the pool.
pub fn stability_pool_cap(
    stablecoin_nav: UFix64<9>,
    stablecoin_in_pool: UFix64<6>,
    levercoin_nav: UFix64<9>,
    levercoin_in_pool: UFix64<6>,
) -> (r: Result<UFix64<6>, CoreError>)
    ensures
        r == stability_pool_cap_spec(
            stablecoin_nav,
            stablecoin_in_pool,
            levercoin_nav,
            levercoin_in_pool,
        ),
{
    let stablecoin_cap = token_cap(stablecoin_nav, stablecoin_in_pool)?;
    let levercoin_cap = token_cap(levercoin_nav, levercoin_in_pool)?;
    match stablecoin_cap.checked_add(levercoin_cap) {
        Some(bits) => Ok(UFix64::new(bits)),
        None => Err(CoreError::ArithmeticOverflow),
    }
}

/// The net asset value of a pool share. Fails with `DivisionByZero` while
/// no share exists.
pub fn lp_token_nav(
    stablecoin_nav: UFix64<9>,
    stablecoin_in_pool: UFix64<6>,
    levercoin_nav: UFix64<9>,
    levercoin_in_pool: UFix64<6>,
    lp_token_supply: UFix64<6>,
) -> (r: Result<UFix64<9>, CoreError>)
    ensures
        r == lp_token_nav_spec(
            stablecoin_nav,
            stablecoin_in_pool,
            levercoin_nav,
            levercoin_in_pool,
            lp_token_supply,
        ),
{
    let cap = stability_pool_cap(
        stablecoin_nav,
        stablecoin_in_pool,
        levercoin_nav,
        levercoin_in_pool,
    )?;
    match floor_mul_div(cap.bits, UNIT_9, lp_token_supply.bits) {
        Ok(bits) => Ok(UFix64::new(bits)),
        Err(e) => Err(e),
    }
}

/// The pool shares given for a deposit of stablecoin.
pub fn lp_token_out(amount_in: UFix64<6>, lp_token_nav: UFix64<9>) -> (r: Result<
    UFix64<6>,
    CoreError,
>)
    ensures
        r == lp_token_out_spec(amount_in, lp_token_nav),
{
    match floor_mul_div(amount_in.bits, UNIT_9, lp_token_nav.bits) {
        Ok(bits) => Ok(UFix64::new(bits)),
        Err(e) => Err(e),
    }
}

/// The amount of one pool token that `lp_token_in` shares withdraw:
/// `lp_token_in * pool_balance / lp_token_supply`, rounded down.
pub fn amount_token_to_withdraw(
    lp_token_in: UFix64<6>,
    lp_token_supply: UFix64<6>,
    pool_balance: UFix64<6>,
) -> (r: Result<UFix64<6>, CoreError>)
    ensures
        r == amount_token_to_withdraw_spec(lp_token_in, lp_token_supply, pool_balance),
{
    match floor_mul_div(lp_token_in.bits, pool_balance.bits, lp_token_supply.bits) {
        Ok(bits) => Ok(UFix64::new(bits)),
        Err(e) => Err(e),
    }
}

/// Splits the stablecoin of a withdrawal into the withdrawal fee, charged
/// on the value of both tokens withdrawn, and the rest. The pool's balance
/// of stablecoin bounds the withdrawal: one that asks for more than the
/// pool holds fails with `ArithmeticUnderflow` before any fee is computed.
pub fn stablecoin_withdrawal_fee(
    stablecoin_in_pool: UFix64<6>,
    stablecoin_to_withdraw: UFix64<6>,
    stablecoin_nav: UFix64<9>,
    levercoin_to_withdraw: UFix64<6>,
    levercoin_nav: UFix64<9>,
    withdrawal_fee: UFix64<4>,
) -> (r: Result<FeeExtract<6>, CoreError>)
    ensures
        r == stablecoin_withdrawal_fee_spec(
            stablecoin_in_pool,
            stablecoin_to_withdraw,
            stablecoin_nav,
            levercoin_to_withdraw,
            levercoin_nav,
            withdrawal_fee,
        ),
        r is Ok ==> r->Ok_0.splits(stablecoin_to_withdraw),
        r is Ok ==> stablecoin_to_withdraw.bits <= stablecoin_in_pool.bits,
{
    if stablecoin_to_withdraw.bits > stablecoin_in_pool.bits {
        return Err(CoreError::ArithmeticUnderflow);
    }
    let value = stability_pool_cap(
        stablecoin_nav,
        stablecoin_to_withdraw,
        levercoin_nav,
        levercoin_to_withdraw,
    )?;
    let of_value = FeeExtract::new(withdrawal_fee, value)?;
    let fee = ceil_mul_div(of_value.fees_extracted.bits, UNIT_9, stablecoin_nav.bits)?;
    if fee > stablecoin_to_withdraw.bits {
        Err(CoreError::ArithmeticUnderflow)
    } else {
        Ok(
            FeeExtract {
                fees_extracted: UFix64::new(fee),
                amount_remaining: UFix64::new(stablecoin_to_withdraw.bits - fee),
            },
        )
    }
}

} // verus!
