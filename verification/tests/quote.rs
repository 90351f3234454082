use hylo_core::accounts::{LstHeader, Mint, PoolConfig, TokenAccount};
use hylo_core::error::CoreError;
use hylo_core::exchange_context::ExchangeContext;
use hylo_core::fee_controller::{FeePair, LevercoinFeeSet, LevercoinFees, StablecoinFees};
use hylo_core::fixed_point::UFix64;
use hylo_core::lst_sol_price::LstSolPrice;
use hylo_core::pyth::{OracleConfig, PriceUpdate};
use hylo_core::quote::{
    hyusd_mint, hyusd_redeem, hyusd_xsol_swap, shyusd_mint, shyusd_redeem, shyusd_redeem_lst,
    xsol_hyusd_swap, xsol_mint, xsol_redeem, Quote,
};
use hylo_core::solana_clock::SolanaClock;
use hylo_core::stability_mode::StabilityController;
use hylo_core::tokens::{HYUSD, JITOSOL, XSOL};
use hylo_core::total_sol_cache::TotalSolCache;
use hylo_core::util::{fee_pct_decimal, FeePct};

const EPOCH: u64 = 700;
const NOW: i64 = 1_700_000_000;
const STABLE_SUPPLY: u64 = 10_000_000_000_000;
const DECAY_SUPPLY: u64 = 15_000_000_000_000;
const DEPEG_SUPPLY: u64 = 25_000_000_000_000;

fn context_with(stablecoin_supply: u64, levercoin_supply: Option<u64>) -> ExchangeContext {
    let levercoin_mint: Option<Mint> = levercoin_supply.map(Mint::new);
    ExchangeContext::load(
        SolanaClock::new(EPOCH, NOW),
        &TotalSolCache::new(EPOCH, UFix64::new(1_000_000_000_000_000)),
        StabilityController::new(UFix64::new(1_500_000_000), UFix64::new(1_200_000_000)).unwrap(),
        OracleConfig::new(60, UFix64::new(1_000_000)),
        StablecoinFees::new(
            FeePair::new(UFix64::new(10), UFix64::new(20)),
            FeePair::new(UFix64::new(30), UFix64::new(40)),
            FeePair::new(UFix64::new(50), UFix64::new(60)),
        ),
        LevercoinFees::new(
            LevercoinFeeSet::new(UFix64::new(11), UFix64::new(21), UFix64::new(31), UFix64::new(41)),
            LevercoinFeeSet::new(UFix64::new(12), UFix64::new(22), UFix64::new(32), UFix64::new(42)),
            LevercoinFeeSet::new(UFix64::new(13), UFix64::new(23), UFix64::new(33), UFix64::new(43)),
        ),
        &PriceUpdate::new(2_000_500_000, 500_000, -8, NOW - 10),
        &Mint::new(stablecoin_supply),
        levercoin_mint.as_ref(),
    )
    .unwrap()
}

fn context(stablecoin_supply: u64) -> ExchangeContext {
    context_with(stablecoin_supply, Some(1_000_000_000_000))
}

fn header() -> LstHeader {
    LstHeader::new(JITOSOL, LstSolPrice::new(UFix64::new(1_100_000_000), EPOCH))
}

fn quote(
    in_amount: u64,
    out_amount: u64,
    fee_amount: u64,
    fee_mint: [u8; 32],
    mantissa: i64,
    scale: u32,
) -> Result<Quote, CoreError> {
    Ok(Quote { in_amount, out_amount, fee_amount, fee_mint, fee_pct: FeePct { mantissa, scale } })
}

#[test]
fn fee_fraction_is_fee_over_amount() {
    assert_eq!(
        fee_pct_decimal::<6>(UFix64::new(3), UFix64::new(1_000)),
        Ok(FeePct { mantissa: 3_000, scale: 6 })
    );
    assert_eq!(
        fee_pct_decimal::<9>(UFix64::new(1), UFix64::new(3)),
        Ok(FeePct { mantissa: 333_333_333, scale: 9 })
    );
    assert_eq!(
        fee_pct_decimal::<9>(UFix64::new(5), UFix64::new(5)),
        Ok(FeePct { mantissa: 1_000_000_000, scale: 9 })
    );
    assert_eq!(
        fee_pct_decimal::<9>(UFix64::new(0), UFix64::new(5)),
        Ok(FeePct { mantissa: 0, scale: 9 })
    );
}

#[test]
fn fee_fraction_failures() {
    assert_eq!(
        fee_pct_decimal::<9>(UFix64::new(0), UFix64::new(0)),
        Err(CoreError::DivisionByZero)
    );
    assert_eq!(
        fee_pct_decimal::<9>(UFix64::new(u64::MAX), UFix64::new(1)),
        Err(CoreError::ArithmeticOverflow)
    );
    // 10^19 fits 64 bits unsigned, not signed.
    assert_eq!(
        fee_pct_decimal::<9>(UFix64::new(10_000_000_000), UFix64::new(1)),
        Err(CoreError::ArithmeticOverflow)
    );
}

#[test]
fn fee_fraction_zero() {
    assert_eq!(FeePct::zero(), FeePct { mantissa: 0, scale: 0 });
}

#[test]
fn quote_hyusd_mint() {
    assert_eq!(
        hyusd_mint(&context(DECAY_SUPPLY), &header(), UFix64::new(1_000_000_000_000)),
        quote(1_000_000_000_000, 21_934_000_000, 3_000_000_000, JITOSOL, 3_000_000, 9)
    );
    assert_eq!(
        hyusd_mint(&context(STABLE_SUPPLY), &header(), UFix64::new(1_000_000_000_000)),
        quote(1_000_000_000_000, 21_978_000_000, 1_000_000_000, JITOSOL, 1_000_000, 9)
    );
}

#[test]
fn quote_hyusd_mint_over_the_ceiling() {
    let sol = LstHeader::new(JITOSOL, LstSolPrice::new(UFix64::new(1_000_000_000), EPOCH));
    assert_eq!(
        hyusd_mint(&context(DECAY_SUPPLY), &sol, UFix64::new(600_000_000_000_000)),
        Err(CoreError::ExceedsMaxMintable)
    );
}

#[test]
fn quote_of_nothing_has_no_fee_fraction() {
    assert_eq!(
        hyusd_mint(&context(DECAY_SUPPLY), &header(), UFix64::new(0)),
        Err(CoreError::DivisionByZero)
    );
}

#[test]
fn quote_hyusd_redeem() {
    // Forty basis points come off the stablecoin; the rest buys collateral.
    assert_eq!(
        hyusd_redeem(&context(DECAY_SUPPLY), &header(), UFix64::new(22_000_000_000)),
        quote(22_000_000_000, 995_502_248_875, 88_000_000, HYUSD, 4_000, 6)
    );
    // The smallest amount is all fee.
    assert_eq!(
        hyusd_redeem(&context(DECAY_SUPPLY), &header(), UFix64::new(1)),
        quote(1, 0, 1, HYUSD, 1_000_000, 6)
    );
}

#[test]
fn quote_hyusd_redeem_takes_the_fee_from_the_stablecoin() {
    // A hundred stablecoin at one per cent, worth 1.0 each, with SOL at
    // 20.00 and the collateral at 1.0 SOL: one stablecoin is the fee, and
    // ninety-nine buy 4.95 of collateral.
    let one_per_cent = FeePair::new(UFix64::new(0), UFix64::new(100));
    let ctx = ExchangeContext::load(
        SolanaClock::new(EPOCH, NOW),
        &TotalSolCache::new(EPOCH, UFix64::new(1_000_000_000_000_000)),
        StabilityController::new(UFix64::new(1_500_000_000), UFix64::new(1_200_000_000)).unwrap(),
        OracleConfig::new(60, UFix64::new(1_000_000)),
        StablecoinFees::new(one_per_cent, one_per_cent, one_per_cent),
        context(DECAY_SUPPLY).levercoin_fees,
        &PriceUpdate::new(2_000_000_000, 0, -8, NOW),
        &Mint::new(DECAY_SUPPLY),
        None,
    )
    .unwrap();
    let sol = LstHeader::new(JITOSOL, LstSolPrice::new(UFix64::new(1_000_000_000), EPOCH));
    assert_eq!(
        hyusd_redeem(&ctx, &sol, UFix64::new(100_000_000)),
        quote(100_000_000, 4_950_000_000, 1_000_000, HYUSD, 10_000, 6)
    );
}

#[test]
fn quote_hyusd_redeem_that_improves_the_mode_pays_the_current_rate() {
    // Eight million stablecoin out take the ratio from 1.3333 to 1.7142:
    // the fee is still the forty basis points of Decay.
    let sol = LstHeader::new(JITOSOL, LstSolPrice::new(UFix64::new(1_000_000_000), EPOCH));
    assert_eq!(
        hyusd_redeem(&context(DECAY_SUPPLY), &sol, UFix64::new(8_000_000_000_000)),
        quote(8_000_000_000_000, 398_200_899_550_224, 32_000_000_000, HYUSD, 4_000, 6)
    );
}

#[test]
fn quote_hyusd_redeem_in_depeg_pays_the_reduced_value() {
    assert_eq!(
        hyusd_redeem(&context(DEPEG_SUPPLY), &header(), UFix64::new(1_000_000_000)),
        quote(1_000_000_000, 36_127_390_850, 6_000_000, HYUSD, 6_000, 6)
    );
}

#[test]
fn quote_xsol_mint() {
    assert_eq!(
        xsol_mint(&context(DECAY_SUPPLY), &header(), UFix64::new(1_000_000_000_000)),
        quote(1_000_000_000_000, 4_385_948_103, 1_200_000_000, JITOSOL, 1_200_000, 9)
    );
}

#[test]
fn quote_xsol_redeem() {
    assert_eq!(
        xsol_redeem(&context(DECAY_SUPPLY), &header(), UFix64::new(1_000_000_000)),
        quote(1_000_000_000, 226_659_397_573, 2_200_000, XSOL, 2_200, 6)
    );
    assert_eq!(
        xsol_redeem(&context(STABLE_SUPPLY), &header(), UFix64::new(1_000_000_000)),
        quote(1_000_000_000, 453_364_226_977, 2_100_000, XSOL, 2_100, 6)
    );
}

#[test]
fn quote_hyusd_xsol_swap() {
    assert_eq!(
        hyusd_xsol_swap(&context(DECAY_SUPPLY), UFix64::new(500_000_000_000)),
        quote(500_000_000_000, 99_381_237_524, 2_100_000_000, HYUSD, 4_200, 6)
    );
    assert_eq!(
        hyusd_xsol_swap(&context(DEPEG_SUPPLY), UFix64::new(1_000_000_000)),
        quote(1_000_000_000, 79_656_000_000, 4_300_000, HYUSD, 4_300, 6)
    );
}

#[test]
fn quote_xsol_hyusd_swap() {
    assert_eq!(
        xsol_hyusd_swap(&context(DECAY_SUPPLY), UFix64::new(100_000_000_000)),
        quote(100_000_000_000, 498_400_000_000, 320_000_000, XSOL, 3_200, 6)
    );
}

#[test]
fn quote_xsol_hyusd_swap_over_the_ceiling() {
    assert_eq!(
        xsol_hyusd_swap(&context(DECAY_SUPPLY), UFix64::new(1_000_000_000_000)),
        Err(CoreError::ExceedsMaxSwappable)
    );
}

#[test]
fn levercoin_quotes_fail_without_levercoin() {
    let ctx = context_with(DECAY_SUPPLY, None);
    let amount_lst: UFix64<9> = UFix64::new(1_000_000_000_000);
    let amount_token: UFix64<6> = UFix64::new(1_000_000_000);
    assert_eq!(xsol_mint(&ctx, &header(), amount_lst), Err(CoreError::MissingLevercoinSupply));
    assert_eq!(xsol_redeem(&ctx, &header(), amount_token), Err(CoreError::MissingLevercoinSupply));
    assert_eq!(hyusd_xsol_swap(&ctx, amount_token), Err(CoreError::MissingLevercoinSupply));
    assert_eq!(xsol_hyusd_swap(&ctx, amount_token), Err(CoreError::MissingLevercoinSupply));
    assert_eq!(
        shyusd_mint(&ctx, &Mint::new(1), &TokenAccount::new(1), &TokenAccount::new(0), amount_token),
        Err(CoreError::MissingLevercoinSupply)
    );
    // The stablecoin quotes do not need it.
    assert!(hyusd_mint(&ctx, &header(), amount_lst).is_ok());
    assert!(hyusd_redeem(&ctx, &header(), amount_token).is_ok());
}

#[test]
fn quotes_fail_on_a_stale_lst_price() {
    let stale = LstHeader::new(JITOSOL, LstSolPrice::new(UFix64::new(1_100_000_000), EPOCH - 1));
    let ctx = context(DECAY_SUPPLY);
    let amount_lst: UFix64<9> = UFix64::new(1_000_000_000_000);
    let amount_token: UFix64<6> = UFix64::new(1_000_000_000);
    assert_eq!(hyusd_mint(&ctx, &stale, amount_lst), Err(CoreError::StaleLstPrice));
    assert_eq!(hyusd_redeem(&ctx, &stale, amount_token), Err(CoreError::StaleLstPrice));
    assert_eq!(xsol_mint(&ctx, &stale, amount_lst), Err(CoreError::StaleLstPrice));
    assert_eq!(xsol_redeem(&ctx, &stale, amount_token), Err(CoreError::StaleLstPrice));
}

#[test]
fn quote_shyusd_mint() {
    let ctx = context(DECAY_SUPPLY);
    assert_eq!(
        shyusd_mint(
            &ctx,
            &Mint::new(900_000_000_000),
            &TokenAccount::new(1_000_000_000_000),
            &TokenAccount::new(20_000_000_000),
            UFix64::new(1_000_000_000)
        ),
        quote(1_000_000_000, 818_033_085, 0, HYUSD, 0, 0)
    );
    assert_eq!(
        shyusd_mint(
            &ctx,
            &Mint::new(900_000_000_000),
            &TokenAccount::new(1_000_000_000_000),
            &TokenAccount::new(0),
            UFix64::new(1_000_000_000)
        ),
        quote(1_000_000_000, 900_000_000, 0, HYUSD, 0, 0)
    );
}

#[test]
fn quote_shyusd_mint_into_an_empty_pool() {
    assert_eq!(
        shyusd_mint(
            &context(DECAY_SUPPLY),
            &Mint::new(0),
            &TokenAccount::new(0),
            &TokenAccount::new(0),
            UFix64::new(1_000_000_000)
        ),
        Err(CoreError::DivisionByZero)
    );
}

#[test]
fn quote_shyusd_redeem() {
    assert_eq!(
        shyusd_redeem(
            &Mint::new(900_000_000_000),
            &TokenAccount::new(1_000_000_000_000),
            &TokenAccount::new(0),
            &PoolConfig::new(UFix64::new(50)),
            UFix64::new(1_000_000_000)
        ),
        quote(1_000_000_000, 1_105_555_555, 5_555_556, HYUSD, 5_000, 6)
    );
}

#[test]
fn quote_shyusd_redeem_is_refused_with_levercoin_in_the_pool() {
    assert_eq!(
        shyusd_redeem(
            &Mint::new(900_000_000_000),
            &TokenAccount::new(1_000_000_000_000),
            &TokenAccount::new(1),
            &PoolConfig::new(UFix64::new(50)),
            UFix64::new(1_000_000_000)
        ),
        Err(CoreError::LevercoinInPool)
    );
}

#[test]
fn quote_shyusd_redeem_lst() {
    let ctx = context(DECAY_SUPPLY);
    assert_eq!(
        shyusd_redeem_lst(
            &ctx,
            &Mint::new(900_000_000_000),
            &TokenAccount::new(1_000_000_000_000),
            &TokenAccount::new(20_000_000_000),
            &PoolConfig::new(UFix64::new(50)),
            &header(),
            UFix64::new(1_000_000_000)
        ),
        quote(1_000_000_000, 55_038_188_085, 489_603_516, JITOSOL, 8_895_705, 9)
    );
    assert_eq!(
        shyusd_redeem_lst(
            &ctx,
            &Mint::new(900_000_000_000),
            &TokenAccount::new(1_000_000_000_000),
            &TokenAccount::new(0),
            &PoolConfig::new(UFix64::new(50)),
            &header(),
            UFix64::new(1_000_000_000)
        ),
        quote(1_000_000_000, 50_026_501_873, 453_308_719, JITOSOL, 9_061_371, 9)
    );
}

#[test]
fn quote_shyusd_redeem_lst_of_more_shares_than_exist() {
    assert_eq!(
        shyusd_redeem_lst(
            &context(DECAY_SUPPLY),
            &Mint::new(900_000_000_000),
            &TokenAccount::new(1_000_000_000_000),
            &TokenAccount::new(20_000_000_000),
            &PoolConfig::new(UFix64::new(50)),
            &header(),
            UFix64::new(1_000_000_000_000)
        ),
        Err(CoreError::ArithmeticUnderflow)
    );
}

#[test]
fn quote_shyusd_redeem_lst_failures() {
    let ctx = context(DECAY_SUPPLY);
    assert_eq!(
        shyusd_redeem_lst(
            &ctx,
            &Mint::new(0),
            &TokenAccount::new(1_000_000_000_000),
            &TokenAccount::new(20_000_000_000),
            &PoolConfig::new(UFix64::new(50)),
            &header(),
            UFix64::new(1_000_000_000)
        ),
        Err(CoreError::DivisionByZero)
    );
    let stale = LstHeader::new(JITOSOL, LstSolPrice::new(UFix64::new(1_100_000_000), EPOCH + 1));
    assert_eq!(
        shyusd_redeem_lst(
            &ctx,
            &Mint::new(900_000_000_000),
            &TokenAccount::new(1_000_000_000_000),
            &TokenAccount::new(20_000_000_000),
            &PoolConfig::new(UFix64::new(50)),
            &stale,
            UFix64::new(1_000_000_000)
        ),
        Err(CoreError::StaleLstPrice)
    );
    assert_eq!(
        shyusd_redeem_lst(
            &context_with(DECAY_SUPPLY, None),
            &Mint::new(900_000_000_000),
            &TokenAccount::new(1_000_000_000_000),
            &TokenAccount::new(20_000_000_000),
            &PoolConfig::new(UFix64::new(50)),
            &header(),
            UFix64::new(1_000_000_000)
        ),
        Err(CoreError::MissingLevercoinSupply)
    );
}
