use hylo_core::accounts::{LstHeader, Mint, PoolConfig, TokenAccount};
use hylo_core::error::CoreError;
use hylo_core::exchange_context::ExchangeContext;
use hylo_core::fee_controller::{FeePair, LevercoinFeeSet, LevercoinFees, StablecoinFees};
use hylo_core::fixed_point::UFix64;
use hylo_core::jupiter::{quote_pair, HyloJupiterClient, QuotePair, QuoteParams};
use hylo_core::lst_sol_price::LstSolPrice;
use hylo_core::pyth::{OracleConfig, PriceUpdate};
use hylo_core::quote::{
    hyusd_mint, hyusd_redeem, hyusd_xsol_swap, shyusd_mint, shyusd_redeem, shyusd_redeem_lst,
    xsol_hyusd_swap, xsol_mint, xsol_redeem,
};
use hylo_core::solana_clock::SolanaClock;
use hylo_core::stability_mode::{StabilityController, StabilityMode};
use hylo_core::tokens::{same_address, HYLOSOL, HYUSD, JITOSOL, SHYUSD, XSOL};
use hylo_core::total_sol_cache::TotalSolCache;

const EPOCH: u64 = 700;
const NOW: i64 = 1_700_000_000;

fn new_client() -> HyloJupiterClient {
    HyloJupiterClient::new(
        SolanaClock::new(EPOCH, NOW),
        TotalSolCache::new(EPOCH, UFix64::new(1_000_000_000_000_000)),
        StabilityController::new(UFix64::new(1_500_000_000), UFix64::new(1_200_000_000)).unwrap(),
        OracleConfig::new(60, UFix64::new(1_000_000)),
        StablecoinFees::new(
            FeePair::new(UFix64::new(10), UFix64::new(20)),
            FeePair::new(UFix64::new(30), UFix64::new(40)),
            FeePair::new(UFix64::new(50), UFix64::new(60)),
        ),
        LevercoinFees::new(
            LevercoinFeeSet::new(UFix64::new(11), UFix64::new(21), UFix64::new(31), UFix64::new(41)),
            LevercoinFeeSet::new(UFix64::new(12), UFix64::new(22), UFix64::new(32), UFix64::new(42)),
            LevercoinFeeSet::new(UFix64::new(13), UFix64::new(23), UFix64::new(33), UFix64::new(43)),
        ),
    )
}

fn header() -> LstHeader {
    LstHeader::new(JITOSOL, LstSolPrice::new(UFix64::new(1_100_000_000), EPOCH))
}

fn updated_client(xsol_in_pool: u64) -> HyloJupiterClient {
    let mut client = new_client();
    client.update(
        Mint::new(15_000_000_000_000),
        Mint::new(1_000_000_000_000),
        header(),
        PriceUpdate::new(2_000_500_000, 500_000, -8, NOW - 10),
        Mint::new(900_000_000_000),
        TokenAccount::new(1_000_000_000_000),
        TokenAccount::new(xsol_in_pool),
        PoolConfig::new(UFix64::new(50)),
    );
    client
}

fn params(amount: u64, input_mint: [u8; 32], output_mint: [u8; 32]) -> QuoteParams {
    QuoteParams { amount, input_mint, output_mint }
}

#[test]
fn same_address_compares_all_bytes() {
    assert!(same_address(&HYUSD, &HYUSD));
    assert!(!same_address(&HYUSD, &XSOL));
    let mut almost: [u8; 32] = HYUSD;
    almost[31] ^= 1;
    assert!(!same_address(&HYUSD, &almost));
    let mut first: [u8; 32] = HYUSD;
    first[0] ^= 1;
    assert!(!same_address(&first, &HYUSD));
}

#[test]
fn pair_of_each_operation() {
    assert_eq!(quote_pair(&JITOSOL, &HYUSD), Some(QuotePair::HyusdMint));
    assert_eq!(quote_pair(&HYUSD, &JITOSOL), Some(QuotePair::HyusdRedeem));
    assert_eq!(quote_pair(&JITOSOL, &XSOL), Some(QuotePair::XsolMint));
    assert_eq!(quote_pair(&XSOL, &JITOSOL), Some(QuotePair::XsolRedeem));
    assert_eq!(quote_pair(&HYUSD, &XSOL), Some(QuotePair::HyusdXsolSwap));
    assert_eq!(quote_pair(&XSOL, &HYUSD), Some(QuotePair::XsolHyusdSwap));
    assert_eq!(quote_pair(&HYUSD, &SHYUSD), Some(QuotePair::ShyusdMint));
    assert_eq!(quote_pair(&SHYUSD, &HYUSD), Some(QuotePair::ShyusdRedeem));
    assert_eq!(quote_pair(&SHYUSD, &JITOSOL), Some(QuotePair::ShyusdRedeemLst));
}

#[test]
fn pairs_without_an_operation() {
    assert_eq!(quote_pair(&HYUSD, &HYUSD), None);
    assert_eq!(quote_pair(&JITOSOL, &SHYUSD), None);
    assert_eq!(quote_pair(&XSOL, &SHYUSD), None);
    assert_eq!(quote_pair(&SHYUSD, &XSOL), None);
    assert_eq!(quote_pair(&HYLOSOL, &HYUSD), None);
    assert_eq!(quote_pair(&[0; 32], &[0; 32]), None);
}

#[test]
fn new_client_holds_no_record() {
    let client = new_client();
    assert_eq!(client.hyusd_mint, None);
    assert_eq!(client.xsol_mint, None);
    assert_eq!(client.shyusd_mint, None);
    assert_eq!(client.jitosol_header, None);
    assert_eq!(client.sol_usd, None);
    assert_eq!(client.hyusd_pool, None);
    assert_eq!(client.xsol_pool, None);
    assert_eq!(client.pool_config, None);
    assert_eq!(client.load_exchange_ctx(), Err(CoreError::AccountNotSet));
    assert_eq!(
        client.quote(&params(1_000_000_000_000, JITOSOL, HYUSD)),
        Err(CoreError::AccountNotSet)
    );
}

#[test]
fn update_supplies_the_records_and_keeps_the_configuration() {
    let before = new_client();
    let client = updated_client(20_000_000_000);
    assert_eq!(client.hyusd_mint, Some(Mint::new(15_000_000_000_000)));
    assert_eq!(client.xsol_mint, Some(Mint::new(1_000_000_000_000)));
    assert_eq!(client.shyusd_mint, Some(Mint::new(900_000_000_000)));
    assert_eq!(client.jitosol_header, Some(header()));
    assert_eq!(client.sol_usd, Some(PriceUpdate::new(2_000_500_000, 500_000, -8, NOW - 10)));
    assert_eq!(client.hyusd_pool, Some(TokenAccount::new(1_000_000_000_000)));
    assert_eq!(client.xsol_pool, Some(TokenAccount::new(20_000_000_000)));
    assert_eq!(client.pool_config, Some(PoolConfig::new(UFix64::new(50))));
    assert_eq!(client.clock, before.clock);
    assert_eq!(client.total_sol_cache, before.total_sol_cache);
    assert_eq!(client.stability_controller, before.stability_controller);
    assert_eq!(client.oracle_config, before.oracle_config);
    assert_eq!(client.hyusd_fees, before.hyusd_fees);
    assert_eq!(client.xsol_fees, before.xsol_fees);
}

#[test]
fn context_of_the_records_held() {
    let ctx: ExchangeContext = updated_client(0).load_exchange_ctx().unwrap();
    assert_eq!(ctx.collateral_ratio, UFix64::new(1_333_333_333));
    assert_eq!(ctx.stability_mode, StabilityMode::Decay);
    assert_eq!(ctx.levercoin_supply, Some(UFix64::new(1_000_000_000_000)));
}

#[test]
fn context_without_a_levercoin_mint() {
    let mut client = updated_client(0);
    client.xsol_mint = None;
    let ctx = client.load_exchange_ctx().unwrap();
    assert_eq!(ctx.levercoin_supply, None);
    assert_eq!(
        client.quote(&params(1_000_000_000_000, JITOSOL, XSOL)),
        Err(CoreError::MissingLevercoinSupply)
    );
    assert!(client.quote(&params(1_000_000_000_000, JITOSOL, HYUSD)).is_ok());
}

#[test]
fn reserve_mints() {
    assert_eq!(new_client().get_reserve_mints(), vec![HYUSD, XSOL, SHYUSD, JITOSOL]);
}

#[test]
fn quote_follows_the_pair() {
    let client = updated_client(20_000_000_000);
    let ctx = client.load_exchange_ctx().unwrap();
    let lst: u64 = 1_000_000_000_000;
    let token: u64 = 1_000_000_000;
    let mint = Mint::new(900_000_000_000);
    let hyusd_pool = TokenAccount::new(1_000_000_000_000);
    let xsol_pool = TokenAccount::new(20_000_000_000);
    let pool_config = PoolConfig::new(UFix64::new(50));
    assert_eq!(
        client.quote(&params(lst, JITOSOL, HYUSD)),
        hyusd_mint(&ctx, &header(), UFix64::new(lst))
    );
    assert_eq!(
        client.quote(&params(token, HYUSD, JITOSOL)),
        hyusd_redeem(&ctx, &header(), UFix64::new(token))
    );
    assert_eq!(
        client.quote(&params(lst, JITOSOL, XSOL)),
        xsol_mint(&ctx, &header(), UFix64::new(lst))
    );
    assert_eq!(
        client.quote(&params(token, XSOL, JITOSOL)),
        xsol_redeem(&ctx, &header(), UFix64::new(token))
    );
    assert_eq!(
        client.quote(&params(token, HYUSD, XSOL)),
        hyusd_xsol_swap(&ctx, UFix64::new(token))
    );
    assert_eq!(
        client.quote(&params(token, XSOL, HYUSD)),
        xsol_hyusd_swap(&ctx, UFix64::new(token))
    );
    assert_eq!(
        client.quote(&params(token, HYUSD, SHYUSD)),
        shyusd_mint(&ctx, &mint, &hyusd_pool, &xsol_pool, UFix64::new(token))
    );
    assert_eq!(
        client.quote(&params(token, SHYUSD, HYUSD)),
        shyusd_redeem(&mint, &hyusd_pool, &xsol_pool, &pool_config, UFix64::new(token))
    );
    assert_eq!(
        client.quote(&params(token, SHYUSD, JITOSOL)),
        shyusd_redeem_lst(
            &ctx,
            &mint,
            &hyusd_pool,
            &xsol_pool,
            &pool_config,
            &header(),
            UFix64::new(token)
        )
    );
}

#[test]
fn quote_values_through_the_client() {
    let client = updated_client(20_000_000_000);
    let minted = client.quote(&params(1_000_000_000_000, JITOSOL, HYUSD)).unwrap();
    assert_eq!(minted.in_amount, 1_000_000_000_000);
    assert_eq!(minted.out_amount, 21_934_000_000);
    assert_eq!(minted.fee_amount, 3_000_000_000);
    assert_eq!(minted.fee_mint, JITOSOL);
    let swapped = client.quote(&params(100_000_000_000, XSOL, HYUSD)).unwrap();
    assert_eq!(swapped.out_amount, 498_400_000_000);
    assert_eq!(swapped.fee_amount, 320_000_000);
    assert_eq!(swapped.fee_mint, XSOL);
    assert_eq!(
        client.quote(&params(1_000_000_000, SHYUSD, HYUSD)),
        Err(CoreError::LevercoinInPool)
    );
    let redeemed = updated_client(0).quote(&params(1_000_000_000, SHYUSD, HYUSD)).unwrap();
    assert_eq!(redeemed.out_amount, 1_105_555_555);
    assert_eq!(redeemed.fee_amount, 5_555_556);
}

#[test]
fn quote_of_an_unsupported_pair() {
    let client = updated_client(0);
    assert_eq!(
        client.quote(&params(1_000_000_000, HYLOSOL, HYUSD)),
        Err(CoreError::UnsupportedPair)
    );
    assert_eq!(
        client.quote(&params(1_000_000_000, HYUSD, HYUSD)),
        Err(CoreError::UnsupportedPair)
    );
}

#[test]
fn quote_needs_the_records_of_its_operation() {
    let mut client = updated_client(0);
    client.jitosol_header = None;
    assert_eq!(
        client.quote(&params(1_000_000_000_000, JITOSOL, HYUSD)),
        Err(CoreError::AccountNotSet)
    );
    assert_eq!(
        client.quote(&params(1_000_000_000, SHYUSD, JITOSOL)),
        Err(CoreError::AccountNotSet)
    );
    // A swap needs no collateral record.
    assert!(client.quote(&params(1_000_000_000, HYUSD, XSOL)).is_ok());
    let mut no_pool = updated_client(0);
    no_pool.pool_config = None;
    assert_eq!(
        no_pool.quote(&params(1_000_000_000, SHYUSD, HYUSD)),
        Err(CoreError::AccountNotSet)
    );
    assert!(no_pool.quote(&params(1_000_000_000, HYUSD, SHYUSD)).is_ok());
    let mut no_share = updated_client(0);
    no_share.shyusd_mint = None;
    assert_eq!(
        no_share.quote(&params(1_000_000_000, HYUSD, SHYUSD)),
        Err(CoreError::AccountNotSet)
    );
}

#[test]
fn quote_fails_where_the_context_does() {
    let mut stale = updated_client(0);
    stale.clock = SolanaClock::new(EPOCH, NOW + 1_000);
    assert_eq!(
        stale.quote(&params(1_000_000_000_000, JITOSOL, HYUSD)),
        Err(CoreError::StalePrice)
    );
    // The context is loaded before the pair is looked at.
    assert_eq!(stale.quote(&params(1, HYUSD, HYUSD)), Err(CoreError::StalePrice));
    let mut next_epoch = updated_client(0);
    next_epoch.clock = SolanaClock::new(EPOCH + 1, NOW);
    assert_eq!(
        next_epoch.quote(&params(1_000_000_000_000, JITOSOL, HYUSD)),
        Err(CoreError::StaleCollateralCache)
    );
}
