//! The state that a quoting client keeps between requests, and the choice
//! of a quote from the two mints of a request.

use crate::accounts::{LstHeader, Mint, PoolConfig, TokenAccount};
use crate::error::CoreError;
use crate::exchange_context::{load_spec, ExchangeContext};
use crate::fee_controller::{LevercoinFees, StablecoinFees};
use crate::fixed_point::UFix64;
use crate::pyth::{OracleConfig, PriceUpdate};
use crate::quote::{
    hyusd_mint,
    hyusd_mint_spec,
    hyusd_redeem,
    hyusd_redeem_spec,
    hyusd_xsol_swap,
    hyusd_xsol_swap_spec,
    shyusd_mint,
    shyusd_mint_spec,
    shyusd_redeem,
    shyusd_redeem_lst,
    shyusd_redeem_lst_spec,
    shyusd_redeem_spec,
    xsol_hyusd_swap,
    xsol_hyusd_swap_spec,
    xsol_mint,
    xsol_mint_spec,
    xsol_redeem,
    xsol_redeem_spec,
    Quote,
};
use crate::solana_clock::SolanaClock;
use crate::stability_mode::StabilityController;
use crate::tokens::{same_address, HYUSD, JITOSOL, SHYUSD, XSOL};
use crate::total_sol_cache::TotalSolCache;
use vstd::prelude::*;

verus! {

/// What a quote is asked for: an amount of the input mint, to be turned
/// into the output mint.
#[derive(Clone, Copy, Debug, PartialEq, Eq)]
pub struct QuoteParams {
    pub amount: u64,
    pub input_mint: [u8; 32],
    pub output_mint: [u8; 32],
}

/// The nine operations that have a quote.
#[derive(Clone, Copy, Debug, PartialEq, Eq, Structural)]
pub enum QuotePair {
    HyusdMint,
    HyusdRedeem,
    XsolMint,
    XsolRedeem,
    HyusdXsolSwap,
    XsolHyusdSwap,
    ShyusdMint,
    ShyusdRedeem,
    ShyusdRedeemLst,
}

/// The operation between two mints, where one exists.
pub open spec fn quote_pair_spec(input_mint: Seq<u8>, output_mint: Seq<u8>) -> Option<QuotePair> {
    if input_mint == JITOSOL@ && output_mint == HYUSD@ {
        Some(QuotePair::HyusdMint)
    } else if input_mint == HYUSD@ && output_mint == JITOSOL@ {
        Some(QuotePair::HyusdRedeem)
    } else if input_mint == JITOSOL@ && output_mint == XSOL@ {
        Some(QuotePair::XsolMint)
    } else if input_mint == XSOL@ && output_mint == JITOSOL@ {
        Some(QuotePair::XsolRedeem)
    } else if input_mint == HYUSD@ && output_mint == XSOL@ {
        Some(QuotePair::HyusdXsolSwap)
    } else if input_mint == XSOL@ && output_mint == HYUSD@ {
        Some(QuotePair::XsolHyusdSwap)
    } else if input_mint == HYUSD@ && output_mint == SHYUSD@ {
        Some(QuotePair::ShyusdMint)
    } else if input_mint == SHYUSD@ && output_mint == HYUSD@ {
        Some(QuotePair::ShyusdRedeem)
    } else if input_mint == SHYUSD@ && output_mint == JITOSOL@ {
        Some(QuotePair::ShyusdRedeemLst)
    } else {
        None
    }
}

/// Finds the operation that turns one mint into another.
pub fn quote_pair(input_mint: &[u8; 32], output_mint: &[u8; 32]) -> (r: Option<QuotePair>)
    ensures
        r == quote_pair_spec(input_mint@, output_mint@),
{
    let in_jitosol = same_address(input_mint, &JITOSOL);
    let in_hyusd = same_address(input_mint, &HYUSD);
    let in_xsol = same_address(input_mint, &XSOL);
    let in_shyusd = same_address(input_mint, &SHYUSD);
    let out_jitosol = same_address(output_mint, &JITOSOL);
    let out_hyusd = same_address(output_mint, &HYUSD);
    let out_xsol = same_address(output_mint, &XSOL);
    let out_shyusd = same_address(output_mint, &SHYUSD);
    if in_jitosol && out_hyusd {
        Some(QuotePair::HyusdMint)
    } else if in_hyusd && out_jitosol {
        Some(QuotePair::HyusdRedeem)
    } else if in_jitosol && out_xsol {
        Some(QuotePair::XsolMint)
    } else if in_xsol && out_jitosol {
        Some(QuotePair::XsolRedeem)
    } else if in_hyusd && out_xsol {
        Some(QuotePair::HyusdXsolSwap)
    } else if in_xsol && out_hyusd {
        Some(QuotePair::XsolHyusdSwap)
    } else if in_hyusd && out_shyusd {
        Some(QuotePair::ShyusdMint)
    } else if in_shyusd && out_hyusd {
        Some(QuotePair::ShyusdRedeem)
    } else if in_shyusd && out_jitosol {
        Some(QuotePair::ShyusdRedeemLst)
    } else {
        None
    }
}

/// A record that has been supplied, or the error of one that has not.
pub open spec fn supplied<T>(account: Option<T>) -> Result<T, CoreError> {
    match account {
        Some(a) => Ok(a),
        None => Err(CoreError::AccountNotSet),
    }
}

fn get<T: Copy>(account: &Option<T>) -> (r: Result<T, CoreError>)
    ensures
        r == supplied(*account),
{
    match account {
        Some(a) => Ok(*a),
        None => Err(CoreError::AccountNotSet),
    }
}

/// The protocol configuration together with the records that were last
/// supplied. A new client holds no record; `update` supplies all of them at
/// once.
#[derive(Clone, Copy, Debug, PartialEq, Eq)]
pub struct HyloJupiterClient {
    pub clock: SolanaClock,
    pub total_sol_cache: TotalSolCache,
    pub stability_controller: StabilityController,
    pub oracle_config: OracleConfig<8>,
    pub hyusd_fees: StablecoinFees,
    pub xsol_fees: LevercoinFees,
    pub hyusd_mint: Option<Mint>,
    pub xsol_mint: Option<Mint>,
    pub shyusd_mint: Option<Mint>,
    pub jitosol_header: Option<LstHeader>,
    pub sol_usd: Option<PriceUpdate>,
    pub hyusd_pool: Option<TokenAccount>,
    pub xsol_pool: Option<TokenAccount>,
    pub pool_config: Option<PoolConfig>,
}

impl HyloJupiterClient {
    /// A client of the given configuration, with no record supplied yet.
    pub fn new(
        clock: SolanaClock,
        total_sol_cache: TotalSolCache,
        stability_controller: StabilityController,
        oracle_config: OracleConfig<8>,
        hyusd_fees: StablecoinFees,
        xsol_fees: LevercoinFees,
    ) -> (r: Self)
        ensures
            r == (HyloJupiterClient {
                clock,
                total_sol_cache,
                stability_controller,
                oracle_config,
                hyusd_fees,
                xsol_fees,
                hyusd_mint: None,
                xsol_mint: None,
                shyusd_mint: None,
                jitosol_header: None,
                sol_usd: None,
                hyusd_pool: None,
                xsol_pool: None,
                pool_config: None,
            }),
    {
        HyloJupiterClient {
            clock,
            total_sol_cache,
            stability_controller,
            oracle_config,
            hyusd_fees,
            xsol_fees,
            hyusd_mint: None,
            xsol_mint: None,
            shyusd_mint: None,
            jitosol_header: None,
            sol_usd: None,
            hyusd_pool: None,
            xsol_pool: None,
            pool_config: None,
        }
    }

    /// Supplies all eight records; the configuration stays as it was.
    pub fn update(
        &mut self,
        hyusd_mint: Mint,
        xsol_mint: Mint,
        jitosol_header: LstHeader,
        sol_usd: PriceUpdate,
        shyusd_mint: Mint,
        hyusd_pool: TokenAccount,
        xsol_pool: TokenAccount,
        pool_config: PoolConfig,
    )
        ensures
            *final(self) == (HyloJupiterClient {
                hyusd_mint: Some(hyusd_mint),
                xsol_mint: Some(xsol_mint),
                shyusd_mint: Some(shyusd_mint),
                jitosol_header: Some(jitosol_header),
                sol_usd: Some(sol_usd),
                hyusd_pool: Some(hyusd_pool),
                xsol_pool: Some(xsol_pool),
                pool_config: Some(pool_config),
                ..*old(self)
            }),
    {
        self.hyusd_mint = Some(hyusd_mint);
        self.xsol_mint = Some(xsol_mint);
        self.shyusd_mint = Some(shyusd_mint);
        self.jitosol_header = Some(jitosol_header);
        self.sol_usd = Some(sol_usd);
        self.hyusd_pool = Some(hyusd_pool);
        self.xsol_pool = Some(xsol_pool);
        self.pool_config = Some(pool_config);
    }

    /// The context of the records held: the oracle update and the
    /// stablecoin mint must have been supplied, the levercoin mint may be
    /// absent.
    pub open spec fn load_exchange_ctx_spec(&self) -> Result<ExchangeContext, CoreError> {
        match supplied(self.sol_usd) {
            Err(e) => Err(e),
            Ok(sol_usd) => match supplied(self.hyusd_mint) {
                Err(e) => Err(e),
                Ok(hyusd_mint) => load_spec(
                    self.clock,
                    self.total_sol_cache,
                    self.stability_controller,
                    self.oracle_config,
                    self.hyusd_fees,
                    self.xsol_fees,
                    sol_usd,
                    hyusd_mint,
                    self.xsol_mint,
                ),
            },
        }
    }

    /// Loads the exchange context from the records held.
    pub fn load_exchange_ctx(&self) -> (r: Result<ExchangeContext, CoreError>)
        ensures
            r == self.load_exchange_ctx_spec(),
            r is Ok ==> r->Ok_0.wf(),
    {
        let sol_usd = get(&self.sol_usd)?;
        let hyusd_mint = get(&self.hyusd_mint)?;
        ExchangeContext::load(
            self.clock,
            &self.total_sol_cache,
            self.stability_controller,
            self.oracle_config,
            self.hyusd_fees,
            self.xsol_fees,
            &sol_usd,
            &hyusd_mint,
            self.xsol_mint.as_ref(),
        )
    }

    /// The mints that the client trades.
    pub fn get_reserve_mints(&self) -> (r: Vec<[u8; 32]>)
        ensures
            r@ == seq![HYUSD, XSOL, SHYUSD, JITOSOL],
    {
        let mut mints: Vec<[u8; 32]> = Vec::new();
        mints.push(HYUSD);
        mints.push(XSOL);
        mints.push(SHYUSD);
        mints.push(JITOSOL);
        assert(mints@ =~= seq![HYUSD, XSOL, SHYUSD, JITOSOL]);
        mints
    }

    /// The quote of one operation over a loaded context and the records
    /// held; a record that the operation needs and that is missing is an
    /// error.
    pub open spec fn quote_of_pair_spec(
        &self,
        ctx: ExchangeContext,
        pair: QuotePair,
        amount: u64,
    ) -> Result<Quote, CoreError> {
        match pair {
            QuotePair::HyusdMint => match supplied(self.jitosol_header) {
                Err(e) => Err(e),
                Ok(header) => hyusd_mint_spec(ctx, header, UFix64::<9> { bits: amount }),
            },
            QuotePair::HyusdRedeem => match supplied(self.jitosol_header) {
                Err(e) => Err(e),
                Ok(header) => hyusd_redeem_spec(ctx, header, UFix64::<6> { bits: amount }),
            },
            QuotePair::XsolMint => match supplied(self.jitosol_header) {
                Err(e) => Err(e),
                Ok(header) => xsol_mint_spec(ctx, header, UFix64::<9> { bits: amount }),
            },
            QuotePair::XsolRedeem => match supplied(self.jitosol_header) {
                Err(e) => Err(e),
                Ok(header) => xsol_redeem_spec(ctx, header, UFix64::<6> { bits: amount }),
            },
            QuotePair::HyusdXsolSwap => hyusd_xsol_swap_spec(ctx, UFix64::<6> { bits: amount }),
            QuotePair::XsolHyusdSwap => xsol_hyusd_swap_spec(ctx, UFix64::<6> { bits: amount }),
            QuotePair::ShyusdMint => match (
                supplied(self.shyusd_mint),
                supplied(self.hyusd_pool),
                supplied(self.xsol_pool),
            ) {
                (Ok(share_mint), Ok(hyusd_pool), Ok(xsol_pool)) => shyusd_mint_spec(
                    ctx,
                    share_mint,
                    hyusd_pool,
                    xsol_pool,
                    UFix64::<6> { bits: amount },
                ),
                _ => Err(CoreError::AccountNotSet),
            },
            QuotePair::ShyusdRedeem => match (
                supplied(self.shyusd_mint),
                supplied(self.hyusd_pool),
                supplied(self.xsol_pool),
                supplied(self.pool_config),
            ) {
                (Ok(share_mint), Ok(hyusd_pool), Ok(xsol_pool), Ok(pool_config)) => shyusd_redeem_spec(
                    share_mint,
                    hyusd_pool,
                    xsol_pool,
                    pool_config,
                    UFix64::<6> { bits: amount },
                ),
                _ => Err(CoreError::AccountNotSet),
            },
            QuotePair::ShyusdRedeemLst => match (
                supplied(self.shyusd_mint),
                supplied(self.hyusd_pool),
                supplied(self.xsol_pool),
                supplied(self.pool_config),
                supplied(self.jitosol_header),
            ) {
                (
                    Ok(share_mint),
                    Ok(hyusd_pool),
                    Ok(xsol_pool),
                    Ok(pool_config),
                    Ok(header),
                ) => shyusd_redeem_lst_spec(
                    ctx,
                    share_mint,
                    hyusd_pool,
                    xsol_pool,
                    pool_config,
                    header,
                    UFix64::<6> { bits: amount },
                ),
                _ => Err(CoreError::AccountNotSet),
            },
        }
    }

    /// The quote of a request: the context is loaded first, then the pair
    /// of mints decides the operation.
    pub open spec fn quote_spec(&self, params: QuoteParams) -> Result<Quote, CoreError> {
        match self.load_exchange_ctx_spec() {
            Err(e) => Err(e),
            Ok(ctx) => match quote_pair_spec(params.input_mint@, params.output_mint@) {
                None => Err(CoreError::UnsupportedPair),
                Some(pair) => self.quote_of_pair_spec(ctx, pair, params.amount),
            },
        }
    }

    /// Quotes a request from the records held. Fails where the context
    /// cannot be loaded, where no operation exists between the two mints,
    /// where a record that the operation needs is missing, and where the
    /// operation itself fails.
    pub fn quote(&self, params: &QuoteParams) -> (r: Result<Quote, CoreError>)
        ensures
            r == self.quote_spec(*params),
    {
        let ctx = self.load_exchange_ctx()?;
        let amount = params.amount;
        match quote_pair(&params.input_mint, &params.output_mint) {
            Some(QuotePair::HyusdMint) => hyusd_mint(
                &ctx,
                &get(&self.jitosol_header)?,
                UFix64::new(amount),
            ),
            Some(QuotePair::HyusdRedeem) => hyusd_redeem(
                &ctx,
                &get(&self.jitosol_header)?,
                UFix64::new(amount),
            ),
            Some(QuotePair::XsolMint) => xsol_mint(
                &ctx,
                &get(&self.jitosol_header)?,
                UFix64::new(amount),
            ),
            Some(QuotePair::XsolRedeem) => xsol_redeem(
                &ctx,
                &get(&self.jitosol_header)?,
                UFix64::new(amount),
            ),
            Some(QuotePair::HyusdXsolSwap) => hyusd_xsol_swap(&ctx, UFix64::new(amount)),
            Some(QuotePair::XsolHyusdSwap) => xsol_hyusd_swap(&ctx, UFix64::new(amount)),
            Some(QuotePair::ShyusdMint) => {
                let share_mint = get(&self.shyusd_mint)?;
                let hyusd_pool = get(&self.hyusd_pool)?;
                let xsol_pool = get(&self.xsol_pool)?;
                shyusd_mint(&ctx, &share_mint, &hyusd_pool, &xsol_pool, UFix64::new(amount))
            },
            Some(QuotePair::ShyusdRedeem) => {
                let share_mint = get(&self.shyusd_mint)?;
                let hyusd_pool = get(&self.hyusd_pool)?;
                let xsol_pool = get(&self.xsol_pool)?;
                let pool_config = get(&self.pool_config)?;
                shyusd_redeem(
                    &share_mint,
                    &hyusd_pool,
                    &xsol_pool,
                    &pool_config,
                    UFix64::new(amount),
                )
            },
            Some(QuotePair::ShyusdRedeemLst) => {
                let share_mint = get(&self.shyusd_mint)?;
                let hyusd_pool = get(&self.hyusd_pool)?;
                let xsol_pool = get(&self.xsol_pool)?;
                let pool_config = get(&self.pool_config)?;
                let header = get(&self.jitosol_header)?;
                shyusd_redeem_lst(
                    &ctx,
                    &share_mint,
                    &hyusd_pool,
                    &xsol_pool,
                    &pool_config,
                    &header,
                    UFix64::new(amount),
                )
            },
            None => Err(CoreError::UnsupportedPair),
        }
    }
}

} // verus!
