//! Quotes for every path through the exchange and the stability pool: what
//! goes in, what comes out, and the fee taken on the way.

use crate::accounts::{LstHeader, Mint, PoolConfig, TokenAccount};
use crate::error::CoreError;
use crate::exchange_context::ExchangeContext;
use crate::fee_controller::FeeExtract;
use crate::fixed_point::{UFix64, MAX_SCALE};
use crate::lst_sol_price::LstSolPrice;
use crate::stability_mode::StabilityMode;
use crate::stability_pool_math::{
    amount_token_to_withdraw,
    amount_token_to_withdraw_spec,
    lp_token_nav,
    lp_token_nav_spec,
    lp_token_out,
    lp_token_out_spec,
    stablecoin_withdrawal_fee,
    stablecoin_withdrawal_fee_spec,
};
use crate::tokens::{HYUSD, XSOL};
use crate::util::{fee_pct_decimal, fee_pct_spec, FeePct};
use vstd::prelude::*;

verus! {

/// The outcome of one operation: the amounts in the smallest unit of their
/// tokens, the mint in which the fee is charged, and the fee as a fraction.
#[derive(Clone, Copy, Debug, PartialEq, Eq)]
pub struct Quote {
    pub in_amount: u64,
    pub out_amount: u64,
    pub fee_amount: u64,
    pub fee_mint: [u8; 32],
    pub fee_pct: FeePct,
}

/// A quote whose fee fraction is `fees` over `charged_on`.
pub open spec fn quote_with_fee_spec<const EXP: u8>(
    in_amount: u64,
    out_amount: u64,
    fees: UFix64<EXP>,
    charged_on: UFix64<EXP>,
    fee_mint: [u8; 32],
) -> Result<Quote, CoreError> {
    match fee_pct_spec(fees, charged_on) {
        Err(e) => Err(e),
        Ok(fee_pct) => Ok(
            Quote { in_amount, out_amount, fee_amount: fees.bits, fee_mint, fee_pct },
        ),
    }
}

fn quote_with_fee<const EXP: u8>(
    in_amount: u64,
    out_amount: u64,
    fees: UFix64<EXP>,
    charged_on: UFix64<EXP>,
    fee_mint: [u8; 32],
) -> (r: Result<Quote, CoreError>)
    requires
        EXP <= MAX_SCALE,
    ensures
        r == quote_with_fee_spec(in_amount, out_amount, fees, charged_on, fee_mint),
{
    let fee_pct = fee_pct_decimal(fees, charged_on)?;
    Ok(Quote { in_amount, out_amount, fee_amount: fees.bits, fee_mint, fee_pct })
}

/// The collateral that a token amount buys at a net asset value that was
/// computed before: the conversion of this epoch, then the amount through it.
pub open spec fn token_to_lst_spec(
    ctx: ExchangeContext,
    lst_sol_price: LstSolPrice,
    amount_token: UFix64<6>,
    token_nav: UFix64<9>,
) -> Result<UFix64<9>, CoreError> {
    match ctx.token_conversion_spec(lst_sol_price) {
        Err(e) => Err(e),
        Ok(conversion) => conversion.token_to_lst_spec(amount_token, token_nav),
    }
}

/// The tokens that a collateral amount buys at a net asset value that was
/// computed before.
pub open spec fn lst_to_token_spec(
    ctx: ExchangeContext,
    lst_sol_price: LstSolPrice,
    amount_lst: UFix64<9>,
    token_nav: UFix64<9>,
) -> Result<UFix64<6>, CoreError> {
    match ctx.token_conversion_spec(lst_sol_price) {
        Err(e) => Err(e),
        Ok(conversion) => conversion.lst_to_token_spec(amount_lst, token_nav),
    }
}

fn token_to_lst(
    ctx: &ExchangeContext,
    lst_sol_price: &LstSolPrice,
    amount_token: UFix64<6>,
    token_nav: UFix64<9>,
) -> (r: Result<UFix64<9>, CoreError>)
    ensures
        r == token_to_lst_spec(*ctx, *lst_sol_price, amount_token, token_nav),
{
    ctx.token_conversion(lst_sol_price)?.token_to_lst(amount_token, token_nav)
}

fn lst_to_token(
    ctx: &ExchangeContext,
    lst_sol_price: &LstSolPrice,
    amount_lst: UFix64<9>,
    token_nav: UFix64<9>,
) -> (r: Result<UFix64<6>, CoreError>)
    ensures
        r == lst_to_token_spec(*ctx, *lst_sol_price, amount_lst, token_nav),
{
    ctx.token_conversion(lst_sol_price)?.lst_to_token(amount_lst, token_nav)
}

/// Minting stablecoin from collateral: the fee comes off the deposit, the
/// rest is converted at the stablecoin's net asset value, and the result
/// must pass the mint ceiling.
pub open spec fn hyusd_mint_spec(
    ctx: ExchangeContext,
    lst_header: LstHeader,
    in_amount: UFix64<9>,
) -> Result<Quote, CoreError> {
    match ctx.stablecoin_mint_fee_spec(lst_header.price_sol, in_amount) {
        Err(e) => Err(e),
        Ok(fee) => match ctx.stablecoin_nav_spec() {
            Err(e) => Err(e),
            Ok(nav) => match lst_to_token_spec(ctx, lst_header.price_sol, fee.amount_remaining, nav) {
                Err(e) => Err(e),
                Ok(converted) => match ExchangeContext::within_ceiling_spec(
                    converted,
                    ctx.max_mintable_stablecoin_spec(),
                    CoreError::ExceedsMaxMintable,
                ) {
                    Err(e) => Err(e),
                    Ok(hyusd_out) => quote_with_fee_spec(
                        in_amount.bits,
                        hyusd_out.bits,
                        fee.fees_extracted,
                        in_amount,
                        lst_header.mint,
                    ),
                },
            },
        },
    }
}

/// The totals after a redemption that pays `lst_out` of collateral and takes
/// `stablecoin_burned` out of the supply.
pub open spec fn redemption_totals_spec(
    ctx: ExchangeContext,
    lst_sol_price: LstSolPrice,
    lst_out: UFix64<9>,
    stablecoin_burned: UFix64<6>,
) -> Result<(UFix64<9>, UFix64<6>), CoreError> {
    match lst_sol_price.convert_sol_spec(lst_out, ctx.clock.epoch) {
        Err(e) => Err(e),
        Ok(sol_removed) => match ctx.total_sol.sub_spec(sol_removed) {
            Err(e) => Err(e),
            Ok(new_total_sol) => match ctx.stablecoin_supply.sub_spec(stablecoin_burned) {
                Err(e) => Err(e),
                Ok(new_total_stablecoin) => Ok((new_total_sol, new_total_stablecoin)),
            },
        },
    }
}

/// The mode whose fees a redemption of tokens pays: that of the totals once
/// the whole amount, at the given net asset value, has been paid out in
/// collateral and `stablecoin_burned` has left the supply.
pub open spec fn redemption_fee_mode_spec(
    ctx: ExchangeContext,
    lst_sol_price: LstSolPrice,
    amount_token: UFix64<6>,
    token_nav: UFix64<9>,
    stablecoin_burned: UFix64<6>,
) -> Result<StabilityMode, CoreError> {
    match token_to_lst_spec(ctx, lst_sol_price, amount_token, token_nav) {
        Err(e) => Err(e),
        Ok(lst_out) => ctx.fee_mode_spec(
            redemption_totals_spec(ctx, lst_sol_price, lst_out, stablecoin_burned),
        ),
    }
}

/// The split of the stablecoin that a redemption supplies: the fee, at the
/// redeem rate of the mode after redeeming the whole amount, and the rest.
pub open spec fn hyusd_redeem_fee_spec(
    ctx: ExchangeContext,
    lst_header: LstHeader,
    in_amount: UFix64<6>,
) -> Result<FeeExtract<6>, CoreError> {
    match ctx.stablecoin_nav_spec() {
        Err(e) => Err(e),
        Ok(nav) => match redemption_fee_mode_spec(
            ctx,
            lst_header.price_sol,
            in_amount,
            nav,
            in_amount,
        ) {
            Err(e) => Err(e),
            Ok(mode) => FeeExtract::<6>::new_spec(
                ctx.stablecoin_fees.pair_spec(mode).redeem,
                in_amount,
            ),
        },
    }
}

/// Redeeming stablecoin for collateral: the fee comes off the stablecoin
/// supplied, and the rest is converted at the stablecoin's net asset value.
pub open spec fn hyusd_redeem_spec(
    ctx: ExchangeContext,
    lst_header: LstHeader,
    in_amount: UFix64<6>,
) -> Result<Quote, CoreError> {
    match hyusd_redeem_fee_spec(ctx, lst_header, in_amount) {
        Err(e) => Err(e),
        Ok(fee) => match token_to_lst_spec(
            ctx,
            lst_header.price_sol,
            fee.amount_remaining,
            ctx.stablecoin_nav_spec()->Ok_0,
        ) {
            Err(e) => Err(e),
            Ok(lst_out) => quote_with_fee_spec(
                in_amount.bits,
                lst_out.bits,
                fee.fees_extracted,
                in_amount,
                HYUSD,
            ),
        },
    }
}

/// Minting levercoin from collateral: the fee comes off the deposit and
/// the rest is converted at the levercoin's mint value.
pub open spec fn xsol_mint_spec(
    ctx: ExchangeContext,
    lst_header: LstHeader,
    in_amount: UFix64<9>,
) -> Result<Quote, CoreError> {
    match ctx.levercoin_mint_fee_spec(lst_header.price_sol, in_amount) {
        Err(e) => Err(e),
        Ok(fee) => match ctx.levercoin_nav_at_spec(ctx.sol_usd_price.upper) {
            Err(e) => Err(e),
            Ok(nav) => match lst_to_token_spec(ctx, lst_header.price_sol, fee.amount_remaining, nav) {
                Err(e) => Err(e),
                Ok(xsol_out) => quote_with_fee_spec(
                    in_amount.bits,
                    xsol_out.bits,
                    fee.fees_extracted,
                    in_amount,
                    lst_header.mint,
                ),
            },
        },
    }
}

/// The split of the levercoin that a redemption supplies: the fee, at the
/// redeem rate of the mode after redeeming the whole amount, and the rest.
pub open spec fn xsol_redeem_fee_spec(
    ctx: ExchangeContext,
    lst_header: LstHeader,
    in_amount: UFix64<6>,
) -> Result<FeeExtract<6>, CoreError> {
    match ctx.levercoin_nav_at_spec(ctx.sol_usd_price.lower) {
        Err(e) => Err(e),
        Ok(nav) => match redemption_fee_mode_spec(
            ctx,
            lst_header.price_sol,
            in_amount,
            nav,
            UFix64::<6> { bits: 0 },
        ) {
            Err(e) => Err(e),
            Ok(mode) => FeeExtract::<6>::new_spec(
                ctx.levercoin_fees.set_spec(mode).redeem,
                in_amount,
            ),
        },
    }
}

/// Redeeming levercoin for collateral: the fee comes off the levercoin
/// supplied, and the rest is converted at the levercoin's redeem value.
pub open spec fn xsol_redeem_spec(
    ctx: ExchangeContext,
    lst_header: LstHeader,
    in_amount: UFix64<6>,
) -> Result<Quote, CoreError> {
    match xsol_redeem_fee_spec(ctx, lst_header, in_amount) {
        Err(e) => Err(e),
        Ok(fee) => match token_to_lst_spec(
            ctx,
            lst_header.price_sol,
            fee.amount_remaining,
            ctx.levercoin_nav_at_spec(ctx.sol_usd_price.lower)->Ok_0,
        ) {
            Err(e) => Err(e),
            Ok(lst_out) => quote_with_fee_spec(
                in_amount.bits,
                lst_out.bits,
                fee.fees_extracted,
                in_amount,
                XSOL,
            ),
        },
    }
}

/// Swapping stablecoin into levercoin: the fee comes off the stablecoin
/// and the rest is converted.
pub open spec fn hyusd_xsol_swap_spec(ctx: ExchangeContext, in_amount: UFix64<6>) -> Result<
    Quote,
    CoreError,
> {
    match ctx.stablecoin_to_levercoin_fee_spec(in_amount) {
        Err(e) => Err(e),
        Ok(fee) => match ctx.swap_conversion_spec() {
            Err(e) => Err(e),
            Ok(conversion) => match conversion.stable_to_lever_spec(fee.amount_remaining) {
                Err(e) => Err(e),
                Ok(xsol_out) => quote_with_fee_spec(
                    in_amount.bits,
                    xsol_out.bits,
                    fee.fees_extracted,
                    in_amount,
                    HYUSD,
                ),
            },
        },
    }
}

/// The split of the levercoin that a swap supplies: the fee, at the rate of
/// the mode after the whole amount has become stablecoin, and the rest.
pub open spec fn xsol_hyusd_swap_fee_spec(ctx: ExchangeContext, in_amount: UFix64<6>) -> Result<
    FeeExtract<6>,
    CoreError,
> {
    match ctx.swap_conversion_spec() {
        Err(e) => Err(e),
        Ok(conversion) => match conversion.lever_to_stable_spec(in_amount) {
            Err(e) => Err(e),
            Ok(whole) => match ctx.fee_mode_spec(ctx.levercoin_to_stablecoin_totals_spec(whole)) {
                Err(e) => Err(e),
                Ok(mode) => FeeExtract::<6>::new_spec(
                    ctx.levercoin_fees.set_spec(mode).swap_to_stablecoin,
                    in_amount,
                ),
            },
        },
    }
}

/// Swapping levercoin into stablecoin: the fee comes off the levercoin
/// supplied, the rest is converted, and the result must pass the swap
/// ceiling.
pub open spec fn xsol_hyusd_swap_spec(ctx: ExchangeContext, in_amount: UFix64<6>) -> Result<
    Quote,
    CoreError,
> {
    match xsol_hyusd_swap_fee_spec(ctx, in_amount) {
        Err(e) => Err(e),
        Ok(fee) => match ctx.swap_conversion_spec()->Ok_0.lever_to_stable_spec(
            fee.amount_remaining,
        ) {
            Err(e) => Err(e),
            Ok(converted) => match ExchangeContext::within_ceiling_spec(
                converted,
                ctx.max_swappable_at_spec(ctx.stability_controller.stability_threshold_2),
                CoreError::ExceedsMaxSwappable,
            ) {
                Err(e) => Err(e),
                Ok(hyusd_out) => quote_with_fee_spec(
                    in_amount.bits,
                    hyusd_out.bits,
                    fee.fees_extracted,
                    in_amount,
                    XSOL,
                ),
            },
        },
    }
}

/// Depositing stablecoin into the stability pool: the deposit over the
/// value of a share, with no fee.
pub open spec fn shyusd_mint_spec(
    ctx: ExchangeContext,
    share_mint: Mint,
    hyusd_pool: TokenAccount,
    xsol_pool: TokenAccount,
    hyusd_in: UFix64<6>,
) -> Result<Quote, CoreError> {
    match ctx.stablecoin_nav_spec() {
        Err(e) => Err(e),
        Ok(stablecoin_nav) => match ctx.levercoin_nav_at_spec(ctx.sol_usd_price.upper) {
            Err(e) => Err(e),
            Ok(levercoin_nav) => match lp_token_nav_spec(
                stablecoin_nav,
                UFix64::<6> { bits: hyusd_pool.amount },
                levercoin_nav,
                UFix64::<6> { bits: xsol_pool.amount },
                UFix64::<6> { bits: share_mint.supply },
            ) {
                Err(e) => Err(e),
                Ok(shyusd_nav) => match lp_token_out_spec(hyusd_in, shyusd_nav) {
                    Err(e) => Err(e),
                    Ok(shyusd_out) => Ok(
                        Quote {
                            in_amount: hyusd_in.bits,
                            out_amount: shyusd_out.bits,
                            fee_amount: 0,
                            fee_mint: HYUSD,
                            fee_pct: FeePct { mantissa: 0, scale: 0 },
                        },
                    ),
                },
            },
        },
    }
}

/// Redeeming pool shares for stablecoin alone, which the pool allows only
/// while it holds no levercoin: the pro-rata stablecoin, less the
/// withdrawal fee.
pub open spec fn shyusd_redeem_spec(
    share_mint: Mint,
    hyusd_pool: TokenAccount,
    xsol_pool: TokenAccount,
    pool_config: PoolConfig,
    shyusd_in: UFix64<6>,
) -> Result<Quote, CoreError> {
    if xsol_pool.amount != 0 {
        Err(CoreError::LevercoinInPool)
    } else {
        match amount_token_to_withdraw_spec(
            shyusd_in,
            UFix64::<6> { bits: share_mint.supply },
            UFix64::<6> { bits: hyusd_pool.amount },
        ) {
            Err(e) => Err(e),
            Ok(to_withdraw) => match FeeExtract::<6>::new_spec(
                pool_config.withdrawal_fee,
                to_withdraw,
            ) {
                Err(e) => Err(e),
                Ok(fee) => quote_with_fee_spec(
                    shyusd_in.bits,
                    fee.amount_remaining.bits,
                    fee.fees_extracted,
                    to_withdraw,
                    HYUSD,
                ),
            },
        }
    }
}

/// The stablecoin and the levercoin that a number of pool shares withdraw,
/// each pro rata of the pool's balance.
pub open spec fn pool_withdrawal_spec(
    share_mint: Mint,
    hyusd_pool: TokenAccount,
    xsol_pool: TokenAccount,
    shyusd_in: UFix64<6>,
) -> Result<(UFix64<6>, UFix64<6>), CoreError> {
    match amount_token_to_withdraw_spec(
        shyusd_in,
        UFix64::<6> { bits: share_mint.supply },
        UFix64::<6> { bits: hyusd_pool.amount },
    ) {
        Err(e) => Err(e),
        Ok(hyusd_to_withdraw) => match amount_token_to_withdraw_spec(
            shyusd_in,
            UFix64::<6> { bits: share_mint.supply },
            UFix64::<6> { bits: xsol_pool.amount },
        ) {
            Err(e) => Err(e),
            Ok(xsol_to_withdraw) => Ok((hyusd_to_withdraw, xsol_to_withdraw)),
        },
    }
}

/// The stablecoin of a withdrawal redeemed for collateral: converted at
/// the stablecoin's net asset value, the redemption fee off the payout.
pub open spec fn stablecoin_leg_spec(
    ctx: ExchangeContext,
    lst_sol_price: LstSolPrice,
    amount: UFix64<6>,
    stablecoin_nav: UFix64<9>,
) -> Result<FeeExtract<9>, CoreError> {
    match token_to_lst_spec(ctx, lst_sol_price, amount, stablecoin_nav) {
        Err(e) => Err(e),
        Ok(lst) => ctx.stablecoin_redeem_fee_spec(lst_sol_price, lst),
    }
}

/// The levercoin of a withdrawal redeemed for collateral: converted at
/// the levercoin's redeem value, the redemption fee off the payout.
pub open spec fn levercoin_leg_spec(
    ctx: ExchangeContext,
    lst_sol_price: LstSolPrice,
    amount: UFix64<6>,
) -> Result<FeeExtract<9>, CoreError> {
    match ctx.levercoin_nav_at_spec(ctx.sol_usd_price.lower) {
        Err(e) => Err(e),
        Ok(nav) => match token_to_lst_spec(ctx, lst_sol_price, amount, nav) {
            Err(e) => Err(e),
            Ok(lst) => ctx.levercoin_redeem_fee_spec(lst_sol_price, lst),
        },
    }
}

/// The quote of a withdrawal paid out in collateral: the fee is the
/// withdrawal fee plus the two redemption fees, the payout the two
/// remainders, and the fee fraction the fee over the payout.
pub open spec fn redeem_lst_totals_spec(
    shyusd_in: UFix64<6>,
    withdrawal_fee_lst: UFix64<9>,
    stablecoin_leg: FeeExtract<9>,
    levercoin_leg: FeeExtract<9>,
    fee_mint: [u8; 32],
) -> Result<Quote, CoreError> {
    match withdrawal_fee_lst.add_spec(stablecoin_leg.fees_extracted) {
        Err(e) => Err(e),
        Ok(partial) => match partial.add_spec(levercoin_leg.fees_extracted) {
            Err(e) => Err(e),
            Ok(total_fees) => match stablecoin_leg.amount_remaining.add_spec(
                levercoin_leg.amount_remaining,
            ) {
                Err(e) => Err(e),
                Ok(total_out) => quote_with_fee_spec(
                    shyusd_in.bits,
                    total_out.bits,
                    total_fees,
                    total_out,
                    fee_mint,
                ),
            },
        },
    }
}

/// Redeeming pool shares for collateral: the shares withdraw stablecoin
/// and levercoin pro rata; the withdrawal fee is charged in stablecoin on
/// the value of both and turned into collateral; what is left of the
/// stablecoin, and the levercoin, are each redeemed for collateral.
pub open spec fn shyusd_redeem_lst_spec(
    ctx: ExchangeContext,
    share_mint: Mint,
    hyusd_pool: TokenAccount,
    xsol_pool: TokenAccount,
    pool_config: PoolConfig,
    lst_header: LstHeader,
    shyusd_in: UFix64<6>,
) -> Result<Quote, CoreError> {
    match pool_withdrawal_spec(share_mint, hyusd_pool, xsol_pool, shyusd_in) {
        Err(e) => Err(e),
        Ok((hyusd_to_withdraw, xsol_to_withdraw)) => match ctx.stablecoin_nav_spec() {
            Err(e) => Err(e),
            Ok(hyusd_nav) => match ctx.levercoin_nav_at_spec(ctx.sol_usd_price.upper) {
                Err(e) => Err(e),
                Ok(xsol_mint_nav) => match stablecoin_withdrawal_fee_spec(
                    UFix64::<6> { bits: hyusd_pool.amount },
                    hyusd_to_withdraw,
                    hyusd_nav,
                    xsol_to_withdraw,
                    xsol_mint_nav,
                    pool_config.withdrawal_fee,
                ) {
                    Err(e) => Err(e),
                    Ok(withdrawal) => match token_to_lst_spec(
                        ctx,
                        lst_header.price_sol,
                        withdrawal.fees_extracted,
                        hyusd_nav,
                    ) {
                        Err(e) => Err(e),
                        Ok(withdrawal_fee_lst) => match stablecoin_leg_spec(
                            ctx,
                            lst_header.price_sol,
                            withdrawal.amount_remaining,
                            hyusd_nav,
                        ) {
                            Err(e) => Err(e),
                            Ok(stablecoin_leg) => match levercoin_leg_spec(
                                ctx,
                                lst_header.price_sol,
                                xsol_to_withdraw,
                            ) {
                                Err(e) => Err(e),
                                Ok(levercoin_leg) => redeem_lst_totals_spec(
                                    shyusd_in,
                                    withdrawal_fee_lst,
                                    stablecoin_leg,
                                    levercoin_leg,
                                    lst_header.mint,
                                ),
                            },
                        },
                    },
                },
            },
        },
    }
}

/// Quotes a mint of stablecoin from a deposit of collateral.
pub fn hyusd_mint(ctx: &ExchangeContext, lst_header: &LstHeader, in_amount: UFix64<9>) -> (r:
    Result<Quote, CoreError>)
    ensures
        r == hyusd_mint_spec(*ctx, *lst_header, in_amount),
        r is Ok ==> r->Ok_0.in_amount == in_amount.bits,
        r is Ok ==> r->Ok_0.fee_mint == lst_header.mint,
        r is Ok ==> r->Ok_0.fee_amount <= in_amount.bits,
        r is Ok ==> ctx.max_mintable_stablecoin_spec() is Ok,
        r is Ok ==> r->Ok_0.out_amount <= ctx.max_mintable_stablecoin_spec()->Ok_0.bits,
        r is Ok ==> lst_to_token_spec(
            *ctx,
            lst_header.price_sol,
            UFix64::<9> { bits: (in_amount.bits - r->Ok_0.fee_amount) as u64 },
            ctx.stablecoin_nav_spec()->Ok_0,
        ) == Ok::<UFix64<6>, CoreError>(UFix64::<6> { bits: r->Ok_0.out_amount }),
        r is Ok ==> fee_pct_spec(UFix64::<9> { bits: r->Ok_0.fee_amount }, in_amount) == Ok::<
            FeePct,
            CoreError,
        >(r->Ok_0.fee_pct),
{
    let lst_price = lst_header.price_sol;
    let fee = ctx.stablecoin_mint_fee(&lst_price, in_amount)?;
    let stablecoin_nav = ctx.stablecoin_nav()?;
    let converted = lst_to_token(ctx, &lst_price, fee.amount_remaining, stablecoin_nav)?;
    let hyusd_out = ctx.validate_stablecoin_amount(converted)?;
    quote_with_fee(in_amount.bits, hyusd_out.bits, fee.fees_extracted, in_amount, lst_header.mint)
}

fn redemption_fee_mode(
    ctx: &ExchangeContext,
    lst_sol_price: &LstSolPrice,
    amount_token: UFix64<6>,
    token_nav: UFix64<9>,
    stablecoin_burned: UFix64<6>,
) -> (r: Result<StabilityMode, CoreError>)
    ensures
        r == redemption_fee_mode_spec(
            *ctx,
            *lst_sol_price,
            amount_token,
            token_nav,
            stablecoin_burned,
        ),
{
    let lst_out = token_to_lst(ctx, lst_sol_price, amount_token, token_nav)?;
    let sol_removed = lst_sol_price.convert_sol(lst_out, ctx.clock.epoch())?;
    let new_total_sol = ctx.total_sol.try_sub(sol_removed)?;
    let new_total_stablecoin = ctx.stablecoin_supply.try_sub(stablecoin_burned)?;
    ctx.fee_mode(new_total_sol, new_total_stablecoin)
}

/// Quotes a redemption of stablecoin for collateral. The fee is taken from
/// the stablecoin supplied, at the rate of the worse of the current mode
/// and the mode after the redemption; what is left buys the collateral.
pub fn hyusd_redeem(ctx: &ExchangeContext, lst_header: &LstHeader, in_amount: UFix64<6>) -> (r:
    Result<Quote, CoreError>)
    ensures
        r == hyusd_redeem_spec(*ctx, *lst_header, in_amount),
        r is Ok ==> r->Ok_0.in_amount == in_amount.bits,
        r is Ok ==> r->Ok_0.fee_mint == HYUSD,
        r is Ok ==> r->Ok_0.fee_amount <= in_amount.bits,
        r is Ok ==> token_to_lst_spec(
            *ctx,
            lst_header.price_sol,
            UFix64::<6> { bits: (in_amount.bits - r->Ok_0.fee_amount) as u64 },
            ctx.stablecoin_nav_spec()->Ok_0,
        ) == Ok::<UFix64<9>, CoreError>(UFix64::<9> { bits: r->Ok_0.out_amount }),
        r is Ok ==> fee_pct_spec(UFix64::<6> { bits: r->Ok_0.fee_amount }, in_amount) == Ok::<
            FeePct,
            CoreError,
        >(r->Ok_0.fee_pct),
{
    let lst_price = lst_header.price_sol;
    let stablecoin_nav = ctx.stablecoin_nav()?;
    let mode = redemption_fee_mode(ctx, &lst_price, in_amount, stablecoin_nav, in_amount)?;
    let fee = FeeExtract::new(ctx.stablecoin_fees.redeem_fee(mode), in_amount)?;
    let lst_out = token_to_lst(ctx, &lst_price, fee.amount_remaining, stablecoin_nav)?;
    quote_with_fee(in_amount.bits, lst_out.bits, fee.fees_extracted, in_amount, HYUSD)
}

/// Quotes a mint of levercoin from a deposit of collateral.
pub fn xsol_mint(ctx: &ExchangeContext, lst_header: &LstHeader, in_amount: UFix64<9>) -> (r: Result<
    Quote,
    CoreError,
>)
    ensures
        r == xsol_mint_spec(*ctx, *lst_header, in_amount),
        r is Ok ==> r->Ok_0.in_amount == in_amount.bits,
        r is Ok ==> r->Ok_0.fee_mint == lst_header.mint,
        r is Ok ==> r->Ok_0.fee_amount <= in_amount.bits,
        r is Ok ==> lst_to_token_spec(
            *ctx,
            lst_header.price_sol,
            UFix64::<9> { bits: (in_amount.bits - r->Ok_0.fee_amount) as u64 },
            ctx.levercoin_nav_at_spec(ctx.sol_usd_price.upper)->Ok_0,
        ) == Ok::<UFix64<6>, CoreError>(UFix64::<6> { bits: r->Ok_0.out_amount }),
        r is Ok ==> fee_pct_spec(UFix64::<9> { bits: r->Ok_0.fee_amount }, in_amount) == Ok::<
            FeePct,
            CoreError,
        >(r->Ok_0.fee_pct),
{
    let lst_price = lst_header.price_sol;
    let fee = ctx.levercoin_mint_fee(&lst_price, in_amount)?;
    let levercoin_mint_nav = ctx.levercoin_mint_nav()?;
    let xsol_out = lst_to_token(ctx, &lst_price, fee.amount_remaining, levercoin_mint_nav)?;
    quote_with_fee(in_amount.bits, xsol_out.bits, fee.fees_extracted, in_amount, lst_header.mint)
}

/// Quotes a redemption of levercoin for collateral. The fee is taken from
/// the levercoin supplied, at the rate of the worse of the current mode and
/// the mode after the redemption; what is left buys the collateral.
pub fn xsol_redeem(ctx: &ExchangeContext, lst_header: &LstHeader, in_amount: UFix64<6>) -> (r:
    Result<Quote, CoreError>)
    ensures
        r == xsol_redeem_spec(*ctx, *lst_header, in_amount),
        r is Ok ==> r->Ok_0.in_amount == in_amount.bits,
        r is Ok ==> r->Ok_0.fee_mint == XSOL,
        r is Ok ==> r->Ok_0.fee_amount <= in_amount.bits,
        r is Ok ==> token_to_lst_spec(
            *ctx,
            lst_header.price_sol,
            UFix64::<6> { bits: (in_amount.bits - r->Ok_0.fee_amount) as u64 },
            ctx.levercoin_nav_at_spec(ctx.sol_usd_price.lower)->Ok_0,
        ) == Ok::<UFix64<9>, CoreError>(UFix64::<9> { bits: r->Ok_0.out_amount }),
        r is Ok ==> fee_pct_spec(UFix64::<6> { bits: r->Ok_0.fee_amount }, in_amount) == Ok::<
            FeePct,
            CoreError,
        >(r->Ok_0.fee_pct),
{
    let lst_price = lst_header.price_sol;
    let xsol_nav = ctx.levercoin_redeem_nav()?;
    let mode = redemption_fee_mode(ctx, &lst_price, in_amount, xsol_nav, UFix64::zero())?;
    let fee = FeeExtract::new(ctx.levercoin_fees.redeem_fee(mode), in_amount)?;
    let lst_out = token_to_lst(ctx, &lst_price, fee.amount_remaining, xsol_nav)?;
    quote_with_fee(in_amount.bits, lst_out.bits, fee.fees_extracted, in_amount, XSOL)
}

/// Quotes a swap of stablecoin into levercoin.
pub fn hyusd_xsol_swap(ctx: &ExchangeContext, in_amount: UFix64<6>) -> (r: Result<Quote, CoreError>)
    ensures
        r == hyusd_xsol_swap_spec(*ctx, in_amount),
        r is Ok ==> r->Ok_0.in_amount == in_amount.bits,
        r is Ok ==> r->Ok_0.fee_mint == HYUSD,
        r is Ok ==> r->Ok_0.fee_amount <= in_amount.bits,
        r is Ok ==> ctx.swap_conversion_spec()->Ok_0.stable_to_lever_spec(
            UFix64::<6> { bits: (in_amount.bits - r->Ok_0.fee_amount) as u64 },
        ) == Ok::<UFix64<6>, CoreError>(UFix64::<6> { bits: r->Ok_0.out_amount }),
        r is Ok ==> fee_pct_spec(UFix64::<6> { bits: r->Ok_0.fee_amount }, in_amount) == Ok::<
            FeePct,
            CoreError,
        >(r->Ok_0.fee_pct),
{
    let fee = ctx.stablecoin_to_levercoin_fee(in_amount)?;
    let xsol_out = ctx.swap_conversion()?.stable_to_lever(fee.amount_remaining)?;
    quote_with_fee(in_amount.bits, xsol_out.bits, fee.fees_extracted, in_amount, HYUSD)
}

/// Quotes a swap of levercoin into stablecoin. The fee is taken from the
/// levercoin supplied, at the rate of the worse of the current mode and the
/// mode after the swap; what is left is converted and held to the swap
/// ceiling.
pub fn xsol_hyusd_swap(ctx: &ExchangeContext, in_amount: UFix64<6>) -> (r: Result<Quote, CoreError>)
    ensures
        r == xsol_hyusd_swap_spec(*ctx, in_amount),
        r is Ok ==> r->Ok_0.in_amount == in_amount.bits,
        r is Ok ==> r->Ok_0.fee_mint == XSOL,
        r is Ok ==> r->Ok_0.fee_amount <= in_amount.bits,
        r is Ok ==> ctx.swap_conversion_spec()->Ok_0.lever_to_stable_spec(
            UFix64::<6> { bits: (in_amount.bits - r->Ok_0.fee_amount) as u64 },
        ) == Ok::<UFix64<6>, CoreError>(UFix64::<6> { bits: r->Ok_0.out_amount }),
        r is Ok ==> ctx.max_swappable_at_spec(ctx.stability_controller.stability_threshold_2) is Ok,
        r is Ok ==> r->Ok_0.out_amount <= ctx.max_swappable_at_spec(
            ctx.stability_controller.stability_threshold_2,
        )->Ok_0.bits,
        r is Ok ==> fee_pct_spec(UFix64::<6> { bits: r->Ok_0.fee_amount }, in_amount) == Ok::<
            FeePct,
            CoreError,
        >(r->Ok_0.fee_pct),
{
    let conversion = ctx.swap_conversion()?;
    let whole = conversion.lever_to_stable(in_amount)?;
    let new_total_stablecoin = ctx.stablecoin_supply.try_add(whole)?;
    let mode = ctx.fee_mode(ctx.total_sol, new_total_stablecoin)?;
    let fee = FeeExtract::new(ctx.levercoin_fees.swap_to_stablecoin_fee(mode), in_amount)?;
    let converted = conversion.lever_to_stable(fee.amount_remaining)?;
    let hyusd_out = ctx.validate_stablecoin_swap_amount(converted)?;
    quote_with_fee(in_amount.bits, hyusd_out.bits, fee.fees_extracted, in_amount, XSOL)
}

/// Quotes a deposit of stablecoin into the stability pool.
pub fn shyusd_mint(
    ctx: &ExchangeContext,
    share_mint: &Mint,
    hyusd_pool: &TokenAccount,
    xsol_pool: &TokenAccount,
    hyusd_in: UFix64<6>,
) -> (r: Result<Quote, CoreError>)
    ensures
        r == shyusd_mint_spec(*ctx, *share_mint, *hyusd_pool, *xsol_pool, hyusd_in),
        r is Ok ==> r->Ok_0.in_amount == hyusd_in.bits,
        r is Ok ==> r->Ok_0.fee_mint == HYUSD,
        r is Ok ==> r->Ok_0.fee_amount == 0,
{
    let stablecoin_nav = ctx.stablecoin_nav()?;
    let levercoin_nav = ctx.levercoin_mint_nav()?;
    let shyusd_nav = lp_token_nav(
        stablecoin_nav,
        UFix64::new(hyusd_pool.amount),
        levercoin_nav,
        UFix64::new(xsol_pool.amount),
        UFix64::new(share_mint.supply),
    )?;
    let shyusd_out = lp_token_out(hyusd_in, shyusd_nav)?;
    Ok(
        Quote {
            in_amount: hyusd_in.bits,
            out_amount: shyusd_out.bits,
            fee_amount: 0,
            fee_mint: HYUSD,
            fee_pct: FeePct::zero(),
        },
    )
}

/// Quotes a redemption of pool shares for stablecoin. Refused while the
/// pool holds levercoin.
pub fn shyusd_redeem(
    share_mint: &Mint,
    hyusd_pool: &TokenAccount,
    xsol_pool: &TokenAccount,
    pool_config: &PoolConfig,
    shyusd_in: UFix64<6>,
) -> (r: Result<Quote, CoreError>)
    ensures
        r == shyusd_redeem_spec(*share_mint, *hyusd_pool, *xsol_pool, *pool_config, shyusd_in),
        r is Ok ==> xsol_pool.amount == 0,
        r is Ok ==> r->Ok_0.in_amount == shyusd_in.bits,
        r is Ok ==> r->Ok_0.fee_mint == HYUSD,
        r is Ok ==> r->Ok_0.out_amount + r->Ok_0.fee_amount == amount_token_to_withdraw_spec(
            shyusd_in,
            UFix64::<6> { bits: share_mint.supply },
            UFix64::<6> { bits: hyusd_pool.amount },
        )->Ok_0.bits,
{
    if xsol_pool.amount == 0 {
        let stablecoin_to_withdraw = amount_token_to_withdraw(
            shyusd_in,
            UFix64::new(share_mint.supply),
            UFix64::new(hyusd_pool.amount),
        )?;
        let fee = FeeExtract::new(pool_config.withdrawal_fee, stablecoin_to_withdraw)?;
        quote_with_fee(
            shyusd_in.bits,
            fee.amount_remaining.bits,
            fee.fees_extracted,
            stablecoin_to_withdraw,
            HYUSD,
        )
    } else {
        Err(CoreError::LevercoinInPool)
    }
}

fn stablecoin_leg(
    ctx: &ExchangeContext,
    lst_sol_price: &LstSolPrice,
    amount: UFix64<6>,
    stablecoin_nav: UFix64<9>,
) -> (r: Result<FeeExtract<9>, CoreError>)
    ensures
        r == stablecoin_leg_spec(*ctx, *lst_sol_price, amount, stablecoin_nav),
{
    let lst = token_to_lst(ctx, lst_sol_price, amount, stablecoin_nav)?;
    ctx.stablecoin_redeem_fee(lst_sol_price, lst)
}

fn levercoin_leg(ctx: &ExchangeContext, lst_sol_price: &LstSolPrice, amount: UFix64<6>) -> (r:
    Result<FeeExtract<9>, CoreError>)
    ensures
        r == levercoin_leg_spec(*ctx, *lst_sol_price, amount),
{
    let nav = ctx.levercoin_redeem_nav()?;
    let lst = token_to_lst(ctx, lst_sol_price, amount, nav)?;
    ctx.levercoin_redeem_fee(lst_sol_price, lst)
}

/// Quotes a redemption of pool shares for one collateral asset, by way of
/// the stablecoin and the levercoin that the shares withdraw.
pub fn shyusd_redeem_lst(
    ctx: &ExchangeContext,
    share_mint: &Mint,
    hyusd_pool: &TokenAccount,
    xsol_pool: &TokenAccount,
    pool_config: &PoolConfig,
    lst_header: &LstHeader,
    shyusd_in: UFix64<6>,
) -> (r: Result<Quote, CoreError>)
    ensures
        r == shyusd_redeem_lst_spec(
            *ctx,
            *share_mint,
            *hyusd_pool,
            *xsol_pool,
            *pool_config,
            *lst_header,
            shyusd_in,
        ),
        r is Ok ==> r->Ok_0.in_amount == shyusd_in.bits,
        r is Ok ==> r->Ok_0.fee_mint == lst_header.mint,
{
    // The pro-rata share of each token in the pool.
    let shyusd_supply = UFix64::new(share_mint.supply);
    let hyusd_in_pool = UFix64::new(hyusd_pool.amount);
    let hyusd_to_withdraw = amount_token_to_withdraw(shyusd_in, shyusd_supply, hyusd_in_pool)?;
    let xsol_to_withdraw = amount_token_to_withdraw(
        shyusd_in,
        shyusd_supply,
        UFix64::new(xsol_pool.amount),
    )?;

    // The withdrawal fee, in stablecoin and then in collateral.
    let hyusd_nav = ctx.stablecoin_nav()?;
    let xsol_mint_nav = ctx.levercoin_mint_nav()?;
    let withdrawal = stablecoin_withdrawal_fee(
        hyusd_in_pool,
        hyusd_to_withdraw,
        hyusd_nav,
        xsol_to_withdraw,
        xsol_mint_nav,
        pool_config.withdrawal_fee,
    )?;
    let lst_sol_price = lst_header.price_sol;
    let withdrawal_fee_lst = token_to_lst(
        ctx,
        &lst_sol_price,
        withdrawal.fees_extracted,
        hyusd_nav,
    )?;

    // Each token is redeemed for collateral, with its redemption fee.
    let hyusd_leg = stablecoin_leg(ctx, &lst_sol_price, withdrawal.amount_remaining, hyusd_nav)?;
    let xsol_leg = levercoin_leg(ctx, &lst_sol_price, xsol_to_withdraw)?;

    let total_fees = withdrawal_fee_lst.try_add(hyusd_leg.fees_extracted)?.try_add(
        xsol_leg.fees_extracted,
    )?;
    let total_out = hyusd_leg.amount_remaining.try_add(xsol_leg.amount_remaining)?;
    quote_with_fee(shyusd_in.bits, total_out.bits, total_fees, total_out, lst_header.mint)
}

} // verus!
