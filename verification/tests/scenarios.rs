use hylo_core::accounts::{LstHeader, Mint};
use hylo_core::exchange_context::ExchangeContext;
use hylo_core::fee_controller::{FeePair, LevercoinFeeSet, LevercoinFees, StablecoinFees};
use hylo_core::fixed_point::UFix64;
use hylo_core::lst_sol_price::LstSolPrice;
use hylo_core::pyth::{OracleConfig, PriceUpdate};
use hylo_core::quote::{hyusd_redeem, xsol_mint};
use hylo_core::solana_clock::SolanaClock;
use hylo_core::stability_mode::{StabilityController, StabilityMode};
use hylo_core::tokens::JITOSOL;
use hylo_core::total_sol_cache::TotalSolCache;

const EPOCH: u64 = 700;
const NOW: i64 = 1_700_000_000;

/// One million SOL of collateral, a price of 20.00 to 20.01 USD, thresholds
/// of 1.5 and 1.2, and the given supply of stablecoin.
fn context(stablecoin_supply: u64) -> ExchangeContext {
    ExchangeContext::load(
        SolanaClock::new(EPOCH, NOW),
        &TotalSolCache::new(EPOCH, UFix64::new(1_000_000_000_000_000)),
        StabilityController::new(UFix64::new(1_500_000_000), UFix64::new(1_200_000_000)).unwrap(),
        OracleConfig::new(60, UFix64::new(1_000_000)),
        StablecoinFees::new(
            FeePair::new(UFix64::new(10), UFix64::new(20)),
            FeePair::new(UFix64::new(30), UFix64::new(40)),
            FeePair::new(UFix64::new(50), UFix64::new(60)),
        ),
        LevercoinFees::new(
            LevercoinFeeSet::new(UFix64::new(11), UFix64::new(21), UFix64::new(31), UFix64::new(41)),
            LevercoinFeeSet::new(UFix64::new(12), UFix64::new(22), UFix64::new(32), UFix64::new(42)),
            LevercoinFeeSet::new(UFix64::new(13), UFix64::new(23), UFix64::new(33), UFix64::new(43)),
        ),
        &PriceUpdate::new(2_000_500_000, 500_000, -8, NOW - 10),
        &Mint::new(stablecoin_supply),
        Some(&Mint::new(1_000_000_000_000)),
    )
    .unwrap()
}

fn sol_header() -> LstHeader {
    LstHeader::new(JITOSOL, LstSolPrice::new(UFix64::new(1_000_000_000), EPOCH))
}

#[test]
fn fifteen_million_stablecoin_on_twenty_million_usd_is_decay() {
    let ctx = context(15_000_000_000_000);
    assert_eq!(ctx.sol_usd_price.lower, UFix64::new(2_000_000_000));
    assert_eq!(ctx.sol_usd_price.upper, UFix64::new(2_001_000_000));
    assert_eq!(ctx.collateral_ratio, UFix64::new(1_333_333_333));
    assert_eq!(ctx.stability_mode, StabilityMode::Decay);
}

#[test]
fn a_mint_that_keeps_decay_pays_decay() {
    let ctx = context(15_000_000_000_000);
    // 87,500 SOL more take the ratio to 1.45.
    let projected = ctx
        .projected_stability_mode(UFix64::new(1_087_500_000_000_000), ctx.stablecoin_supply)
        .unwrap();
    assert_eq!(projected, StabilityMode::Decay);
    assert_eq!(ctx.select_stability_mode_for_fees(projected), StabilityMode::Decay);
    let fee = ctx
        .levercoin_mint_fee(&sol_header().price_sol, UFix64::new(87_500_000_000_000))
        .unwrap();
    // Twelve basis points, the rate of Decay.
    assert_eq!(fee.fees_extracted, UFix64::new(105_000_000_000));
    assert_eq!(fee.amount_remaining, UFix64::new(87_395_000_000_000));
}

#[test]
fn a_mint_that_reaches_stable_still_pays_decay() {
    let ctx = context(15_000_000_000_000);
    // 162,500 SOL more take the ratio to 1.55.
    let projected = ctx
        .projected_stability_mode(UFix64::new(1_162_500_000_000_000), ctx.stablecoin_supply)
        .unwrap();
    assert_eq!(projected, StabilityMode::Stable);
    assert_eq!(ctx.select_stability_mode_for_fees(projected), StabilityMode::Decay);
    let fee = ctx
        .levercoin_mint_fee(&sol_header().price_sol, UFix64::new(162_500_000_000_000))
        .unwrap();
    // Twelve basis points, not the eleven of Stable.
    assert_eq!(fee.fees_extracted, UFix64::new(195_000_000_000));
    assert_eq!(fee.amount_remaining, UFix64::new(162_305_000_000_000));
    let quote = xsol_mint(&ctx, &sol_header(), UFix64::new(162_500_000_000_000)).unwrap();
    assert_eq!(quote.fee_amount, 195_000_000_000);
    assert_eq!(quote.fee_pct.mantissa, 1_200_000);
}

#[test]
fn under_the_second_threshold_the_stablecoin_floats_down() {
    // Twenty million USD behind twenty-five million stablecoin.
    let ctx = context(25_000_000_000_000);
    assert_eq!(ctx.collateral_ratio, UFix64::new(800_000_000));
    assert_eq!(ctx.stability_mode, StabilityMode::Depeg);
    let nav = ctx.stablecoin_nav().unwrap();
    assert_eq!(nav, UFix64::new(800_000_000));
    assert!(nav.bits < 1_000_000_000);
    // Value locked over supply: 20,000,000 / 25,000,000.
    let tvl: u128 = u128::from(ctx.total_value_locked().unwrap().bits);
    let supply: u128 = u128::from(ctx.stablecoin_supply.bits);
    assert_eq!(u128::from(nav.bits), tvl * 1_000_000 / supply);
}

#[test]
fn redemptions_in_depeg_pay_the_reduced_value() {
    let depeg = context(25_000_000_000_000);
    let decay = context(15_000_000_000_000);
    let amount: UFix64<6> = UFix64::new(1_000_000_000);
    // The fee comes off the thousand stablecoin: six of them in Depeg,
    // four in Decay. What is left is worth 0.8 USD each in Depeg and buys
    // 39.74 SOL at 20.01 USD; at 1.0 USD each it buys 49.77.
    let reduced = hyusd_redeem(&depeg, &sol_header(), amount).unwrap();
    let full = hyusd_redeem(&decay, &sol_header(), amount).unwrap();
    assert_eq!(reduced.fee_amount, 6_000_000);
    assert_eq!(reduced.out_amount, 39_740_129_935);
    assert_eq!(full.fee_amount, 4_000_000);
    assert_eq!(full.out_amount, 49_775_112_443);
    for _ in 0..3 {
        assert_eq!(hyusd_redeem(&depeg, &sol_header(), amount), Ok(reduced));
    }
}
