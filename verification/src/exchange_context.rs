//! The snapshot that every mint, redeem and swap is priced against.
//!
//! A context is loaded once per request from the collateral cache, the
//! oracle update and the token supplies. It is never changed afterwards:
//! every method reads it and returns a value or an error.

use crate::accounts::Mint;
use crate::conversion::{Conversion, SwapConversion};
use crate::error::CoreError;
use crate::exchange_math::{
    collateral_ratio,
    collateral_ratio_spec,
    depeg_stablecoin_nav,
    lemma_levercoin_nav_monotonic,
    lemma_mint_within_ceiling_holds_ratio,
    lemma_swap_within_ceiling_holds_ratio,
    levercoin_nav_spec,
    max_mintable_stablecoin,
    max_mintable_stablecoin_spec,
    max_swappable_stablecoin,
    max_swappable_stablecoin_spec,
    next_levercoin_mint_nav,
    ratio_holds_after_mint,
    ratio_holds_after_swap,
    next_levercoin_redeem_nav,
    total_value_locked,
    total_value_locked_spec,
};
use crate::fee_controller::{FeeExtract, LevercoinFees, StablecoinFees};
use crate::fixed_point::{lemma_pow10_values, UFix64, UNIT_9};
use crate::lst_sol_price::LstSolPrice;
use crate::pyth::{query_pyth_price, query_pyth_price_spec, OracleConfig, PriceRange, PriceUpdate};
use crate::solana_clock::SolanaClock;
use crate::stability_mode::{StabilityController, StabilityMode};
use crate::stability_pool_math::{stability_pool_cap, stability_pool_cap_spec};
use crate::total_sol_cache::TotalSolCache;
use vstd::prelude::*;

verus! {

/// The values that an exchange transaction is computed from.
///
/// Every field is public, so that contracts can speak of it. A context that
/// `load` built satisfies `wf`; the laws that need the derived fields to
/// agree with the others ask for `wf`.
#[derive(Clone, Copy, Debug, PartialEq, Eq)]
pub struct ExchangeContext {
    pub clock: SolanaClock,
    pub total_sol: UFix64<9>,
    pub sol_usd_price: PriceRange<8>,
    pub stablecoin_supply: UFix64<6>,
    pub levercoin_supply: Option<UFix64<6>>,
    pub collateral_ratio: UFix64<9>,
    pub stability_controller: StabilityController,
    pub stability_mode: StabilityMode,
    pub stablecoin_fees: StablecoinFees,
    pub levercoin_fees: LevercoinFees,
}

/// The supply that a mint record holds, as a token amount.
pub open spec fn supply_of(mint: Mint) -> UFix64<6> {
    UFix64::<6> { bits: mint.supply }
}

/// The context of a request, or the first failure that stops it from being
/// loaded: the collateral cache is checked first, then the oracle update,
/// then the collateral ratio is computed and the mode derived from it.
pub open spec fn load_spec(
    clock: SolanaClock,
    total_sol_cache: TotalSolCache,
    stability_controller: StabilityController,
    oracle_config: OracleConfig<8>,
    stablecoin_fees: StablecoinFees,
    levercoin_fees: LevercoinFees,
    sol_usd_pyth_feed: PriceUpdate,
    stablecoin_mint: Mint,
    levercoin_mint: Option<Mint>,
) -> Result<ExchangeContext, CoreError> {
    match total_sol_cache.validated_spec(clock.epoch) {
        Err(e) => Err(e),
        Ok(total_sol) => match query_pyth_price_spec(clock, sol_usd_pyth_feed, oracle_config) {
            Err(e) => Err(e),
            Ok(sol_usd_price) => match collateral_ratio_spec(
                total_sol,
                sol_usd_price.lower,
                supply_of(stablecoin_mint),
            ) {
                Err(e) => Err(e),
                Ok(collateral_ratio) => Ok(
                    ExchangeContext {
                        clock,
                        total_sol,
                        sol_usd_price,
                        stablecoin_supply: supply_of(stablecoin_mint),
                        levercoin_supply: match levercoin_mint {
                            Some(mint) => Some(supply_of(mint)),
                            None => None,
                        },
                        collateral_ratio,
                        stability_controller,
                        stability_mode: stability_controller.mode_spec(collateral_ratio),
                        stablecoin_fees,
                        levercoin_fees,
                    },
                ),
            },
        },
    }
}

impl ExchangeContext {
    /// The derived fields agree with the fields they are derived from: the
    /// price range is ordered, the collateral ratio is that of the collateral
    /// at the lower price over the stablecoin supply, and the mode is the
    /// controller's mode of that ratio.
    pub open spec fn wf(&self) -> bool {
        &&& self.sol_usd_price.wf()
        &&& collateral_ratio_spec(self.total_sol, self.sol_usd_price.lower, self.stablecoin_supply)
            == Ok::<UFix64<9>, CoreError>(self.collateral_ratio)
        &&& self.stability_mode == self.stability_controller.mode_spec(self.collateral_ratio)
    }

    /// Builds the context of a request. The cached collateral must belong
    /// to the clock's epoch and the oracle update must pass its checks; the
    /// collateral ratio and the mode are derived. There is no partial
    /// context: any failure is returned as it is.
    pub fn load(
        clock: SolanaClock,
        total_sol_cache: &TotalSolCache,
        stability_controller: StabilityController,
        oracle_config: OracleConfig<8>,
        stablecoin_fees: StablecoinFees,
        levercoin_fees: LevercoinFees,
        sol_usd_pyth_feed: &PriceUpdate,
        stablecoin_mint: &Mint,
        levercoin_mint: Option<&Mint>,
    ) -> (r: Result<ExchangeContext, CoreError>)
        ensures
            r == load_spec(
                clock,
                *total_sol_cache,
                stability_controller,
                oracle_config,
                stablecoin_fees,
                levercoin_fees,
                *sol_usd_pyth_feed,
                *stablecoin_mint,
                (match levercoin_mint {
                    Some(mint) => Some(*mint),
                    None => None,
                }),
            ),
            r is Ok ==> r->Ok_0.wf(),
            sol_usd_pyth_feed.is_stale(clock.unix_timestamp, oracle_config.interval_secs) ==> r
                is Err,
    {
        let total_sol = total_sol_cache.get_validated(clock.epoch())?;
        let sol_usd_price = query_pyth_price(&clock, sol_usd_pyth_feed, oracle_config)?;
        let stablecoin_supply = UFix64::new(stablecoin_mint.supply);
        let levercoin_supply = match levercoin_mint {
            Some(mint) => Some(UFix64::new(mint.supply)),
            None => None,
        };
        let collateral_ratio = collateral_ratio(total_sol, sol_usd_price.lower, stablecoin_supply)?;
        let stability_mode = stability_controller.stability_mode(collateral_ratio);
        Ok(
            ExchangeContext {
                clock,
                total_sol,
                sol_usd_price,
                stablecoin_supply,
                levercoin_supply,
                collateral_ratio,
                stability_controller,
                stability_mode,
                stablecoin_fees,
                levercoin_fees,
            },
        )
    }

    /// The value locked: the collateral at the lower bound of the price.
    pub open spec fn total_value_locked_spec(&self) -> Result<UFix64<9>, CoreError> {
        total_value_locked_spec(self.total_sol, self.sol_usd_price.lower)
    }

    /// Total value locked in USD, the collateral priced at the oracle's
    /// lower bound.
    pub fn total_value_locked(&self) -> (r: Result<UFix64<9>, CoreError>)
        ensures
            r == self.total_value_locked_spec(),
    {
        total_value_locked(self.total_sol, self.sol_usd_price.lower)
    }

    /// The levercoin supply, or the error of a context without levercoin.
    pub open spec fn levercoin_supply_result_spec(&self) -> Result<UFix64<6>, CoreError> {
        match self.levercoin_supply {
            Some(supply) => Ok(supply),
            None => Err(CoreError::MissingLevercoinSupply),
        }
    }

    /// The levercoin supply; `MissingLevercoinSupply` where no levercoin
    /// mint exists.
    pub fn levercoin_supply(&self) -> (r: Result<UFix64<6>, CoreError>)
        ensures
            r == self.levercoin_supply_result_spec(),
    {
        match self.levercoin_supply {
            Some(supply) => Ok(supply),
            None => Err(CoreError::MissingLevercoinSupply),
        }
    }

    /// 1.0 in every mode but `Depeg`; there, the value locked over the
    /// stablecoin supply.
    pub open spec fn stablecoin_nav_spec(&self) -> Result<UFix64<9>, CoreError> {
        if self.stability_mode == StabilityMode::Depeg {
            collateral_ratio_spec(self.total_sol, self.sol_usd_price.lower, self.stablecoin_supply)
        } else {
            Ok(UFix64::<9> { bits: UNIT_9 })
        }
    }

    /// The net asset value of the stablecoin: exactly 1.0 unless the mode
    /// is `Depeg`, in which case it is total value locked over supply.
    pub fn stablecoin_nav(&self) -> (r: Result<UFix64<9>, CoreError>)
        ensures
            r == self.stablecoin_nav_spec(),
            self.stability_mode != StabilityMode::Depeg ==> r == Ok::<UFix64<9>, CoreError>(
                UFix64::<9> { bits: UNIT_9 },
            ),
            self.stability_mode == StabilityMode::Depeg && self.wf() ==> r == Ok::<
                UFix64<9>,
                CoreError,
            >(self.collateral_ratio),
    {
        match self.stability_mode {
            StabilityMode::Depeg => depeg_stablecoin_nav(
                self.total_sol,
                self.sol_usd_price.lower,
                self.stablecoin_supply,
            ),
            _ => {
                proof {
                    lemma_pow10_values();
                }
                Ok(UFix64::one())
            },
        }
    }

    /// The levercoin net asset value with the collateral at one price: the
    /// stablecoin's net asset value is found first, then the levercoin
    /// supply, then the value left for the levercoin is divided by it.
    pub open spec fn levercoin_nav_at_spec(&self, sol_usd_price: UFix64<8>) -> Result<
        UFix64<9>,
        CoreError,
    > {
        match self.stablecoin_nav_spec() {
            Err(e) => Err(e),
            Ok(stablecoin_nav) => match self.levercoin_supply_result_spec() {
                Err(e) => Err(e),
                Ok(levercoin_supply) => levercoin_nav_spec(
                    self.total_sol,
                    sol_usd_price,
                    self.stablecoin_supply,
                    stablecoin_nav,
                    levercoin_supply,
                ),
            },
        }
    }

    /// The net asset value charged for minting levercoin: the collateral at
    /// the upper bound of the price.
    pub fn levercoin_mint_nav(&self) -> (r: Result<UFix64<9>, CoreError>)
        ensures
            r == self.levercoin_nav_at_spec(self.sol_usd_price.upper),
    {
        let stablecoin_nav = self.stablecoin_nav()?;
        let levercoin_supply = self.levercoin_supply()?;
        next_levercoin_mint_nav(
            self.total_sol,
            self.sol_usd_price,
            self.stablecoin_supply,
            stablecoin_nav,
            levercoin_supply,
        )
    }

    /// The net asset value paid for redeeming levercoin: the collateral at
    /// the lower bound of the price.
    pub fn levercoin_redeem_nav(&self) -> (r: Result<UFix64<9>, CoreError>)
        ensures
            r == self.levercoin_nav_at_spec(self.sol_usd_price.lower),
    {
        let stablecoin_nav = self.stablecoin_nav()?;
        let levercoin_supply = self.levercoin_supply()?;
        next_levercoin_redeem_nav(
            self.total_sol,
            self.sol_usd_price,
            self.stablecoin_supply,
            stablecoin_nav,
            levercoin_supply,
        )
    }

    /// The mode of the collateral ratio that new totals would give.
    pub open spec fn projected_stability_mode_spec(
        &self,
        new_total_sol: UFix64<9>,
        new_total_stablecoin: UFix64<6>,
    ) -> Result<StabilityMode, CoreError> {
        match collateral_ratio_spec(new_total_sol, self.sol_usd_price.lower, new_total_stablecoin) {
            Ok(ratio) => Ok(self.stability_controller.mode_spec(ratio)),
            Err(e) => Err(e),
        }
    }

    /// Computes the collateral ratio of new totals and gives its mode.
    pub fn projected_stability_mode(
        &self,
        new_total_sol: UFix64<9>,
        new_total_stablecoin: UFix64<6>,
    ) -> (r: Result<StabilityMode, CoreError>)
        ensures
            r == self.projected_stability_mode_spec(new_total_sol, new_total_stablecoin),
    {
        let projected_cr = collateral_ratio(
            new_total_sol,
            self.sol_usd_price.lower,
            new_total_stablecoin,
        )?;
        Ok(self.stability_controller.stability_mode(projected_cr))
    }

    /// The mode whose fees an operation pays: the worse of the current mode
    /// and the projected one. An operation that improves the mode still pays
    /// the fees of the mode it found.
    pub fn select_stability_mode_for_fees(&self, projected_stability_mode: StabilityMode) -> (r:
        StabilityMode)
        ensures
            r == StabilityMode::worse_of(self.stability_mode, projected_stability_mode),
            projected_stability_mode.ordinal_spec() < self.stability_mode.ordinal_spec() ==> r
                == self.stability_mode,
            projected_stability_mode.ordinal_spec() >= self.stability_mode.ordinal_spec() ==> r
                == projected_stability_mode,
    {
        if projected_stability_mode.ordinal() < self.stability_mode.ordinal() {
            self.stability_mode
        } else {
            projected_stability_mode
        }
    }

    /// The mode whose fees an operation pays that leaves the given totals.
    pub open spec fn fee_mode_spec(
        &self,
        totals: Result<(UFix64<9>, UFix64<6>), CoreError>,
    ) -> Result<StabilityMode, CoreError> {
        match totals {
            Err(e) => Err(e),
            Ok((new_total_sol, new_total_stablecoin)) => match self.projected_stability_mode_spec(
                new_total_sol,
                new_total_stablecoin,
            ) {
                Err(e) => Err(e),
                Ok(projected) => Ok(StabilityMode::worse_of(self.stability_mode, projected)),
            },
        }
    }

    /// The mode whose fees an operation pays that leaves the given totals:
    /// the totals are projected into a mode, and the worse of that mode and
    /// the current one is selected.
    pub fn fee_mode(&self, new_total_sol: UFix64<9>, new_total_stablecoin: UFix64<6>) -> (r: Result<
        StabilityMode,
        CoreError,
    >)
        ensures
            r == self.fee_mode_spec(
                Ok::<(UFix64<9>, UFix64<6>), CoreError>((new_total_sol, new_total_stablecoin)),
            ),
    {
        let projected = self.projected_stability_mode(new_total_sol, new_total_stablecoin)?;
        Ok(self.select_stability_mode_for_fees(projected))
    }

    /// The conversion for one collateral asset at the price of this epoch.
    pub open spec fn token_conversion_spec(&self, lst_sol_price: LstSolPrice) -> Result<
        Conversion,
        CoreError,
    > {
        match lst_sol_price.epoch_price_spec(self.clock.epoch) {
            Ok(lst_sol) => Ok(
                Conversion { usd_sol_price: self.sol_usd_price, lst_sol_price: lst_sol },
            ),
            Err(e) => Err(e),
        }
    }

    /// The conversion between one collateral asset and the tokens. Fails
    /// where the asset's price is of another epoch.
    pub fn token_conversion(&self, lst_sol_price: &LstSolPrice) -> (r: Result<
        Conversion,
        CoreError,
    >)
        ensures
            r == self.token_conversion_spec(*lst_sol_price),
    {
        let lst_sol = lst_sol_price.get_epoch_price(self.clock.epoch())?;
        Ok(Conversion::new(self.sol_usd_price, lst_sol))
    }

    /// The stablecoin that a collateral amount stands for, at the
    /// stablecoin's net asset value.
    pub open spec fn lst_to_stablecoin_spec(
        &self,
        lst_sol_price: LstSolPrice,
        amount_lst: UFix64<9>,
    ) -> Result<UFix64<6>, CoreError> {
        match self.token_conversion_spec(lst_sol_price) {
            Err(e) => Err(e),
            Ok(conversion) => match self.stablecoin_nav_spec() {
                Err(e) => Err(e),
                Ok(nav) => conversion.lst_to_token_spec(amount_lst, nav),
            },
        }
    }

    /// The stablecoin that an amount of a collateral asset stands for, at
    /// the stablecoin's net asset value and the lower bound of the price.
    pub fn lst_to_stablecoin(&self, lst_sol_price: &LstSolPrice, amount_lst: UFix64<9>) -> (r: Result<
        UFix64<6>,
        CoreError,
    >)
        ensures
            r == self.lst_to_stablecoin_spec(*lst_sol_price, amount_lst),
    {
        let conversion = self.token_conversion(lst_sol_price)?;
        let nav = self.stablecoin_nav()?;
        conversion.lst_to_token(amount_lst, nav)
    }

    /// The totals after a stablecoin mint: the collateral grows by the
    /// deposit, the supply by the stablecoin that the deposit stands for.
    pub open spec fn stablecoin_mint_totals_spec(
        &self,
        lst_sol_price: LstSolPrice,
        amount_lst: UFix64<9>,
    ) -> Result<(UFix64<9>, UFix64<6>), CoreError> {
        match lst_sol_price.convert_sol_spec(amount_lst, self.clock.epoch) {
            Err(e) => Err(e),
            Ok(new_sol) => match self.total_sol.add_spec(new_sol) {
                Err(e) => Err(e),
                Ok(new_total_sol) => match self.lst_to_stablecoin_spec(lst_sol_price, amount_lst) {
                    Err(e) => Err(e),
                    Ok(minted) => match minted.add_spec(self.stablecoin_supply) {
                        Err(e) => Err(e),
                        Ok(new_total_stablecoin) => Ok((new_total_sol, new_total_stablecoin)),
                    },
                },
            },
        }
    }

    /// The totals after a stablecoin redemption: the collateral shrinks by
    /// the payout, the supply by the stablecoin that the payout stands for.
    pub open spec fn stablecoin_redeem_totals_spec(
        &self,
        lst_sol_price: LstSolPrice,
        amount_lst: UFix64<9>,
    ) -> Result<(UFix64<9>, UFix64<6>), CoreError> {
        match lst_sol_price.convert_sol_spec(amount_lst, self.clock.epoch) {
            Err(e) => Err(e),
            Ok(sol_removed) => match self.total_sol.sub_spec(sol_removed) {
                Err(e) => Err(e),
                Ok(new_total_sol) => match self.lst_to_stablecoin_spec(lst_sol_price, amount_lst) {
                    Err(e) => Err(e),
                    Ok(redeemed) => match self.stablecoin_supply.sub_spec(redeemed) {
                        Err(e) => Err(e),
                        Ok(new_total_stablecoin) => Ok((new_total_sol, new_total_stablecoin)),
                    },
                },
            },
        }
    }

    /// The totals after a levercoin mint: the collateral grows by the
    /// deposit, the stablecoin supply stays.
    pub open spec fn levercoin_mint_totals_spec(
        &self,
        lst_sol_price: LstSolPrice,
        amount_lst: UFix64<9>,
    ) -> Result<(UFix64<9>, UFix64<6>), CoreError> {
        match lst_sol_price.convert_sol_spec(amount_lst, self.clock.epoch) {
            Err(e) => Err(e),
            Ok(new_sol) => match self.total_sol.add_spec(new_sol) {
                Err(e) => Err(e),
                Ok(new_total_sol) => Ok((new_total_sol, self.stablecoin_supply)),
            },
        }
    }

    /// The totals after a levercoin redemption: the collateral shrinks by
    /// the payout, the stablecoin supply stays.
    pub open spec fn levercoin_redeem_totals_spec(
        &self,
        lst_sol_price: LstSolPrice,
        amount_lst: UFix64<9>,
    ) -> Result<(UFix64<9>, UFix64<6>), CoreError> {
        match lst_sol_price.convert_sol_spec(amount_lst, self.clock.epoch) {
            Err(e) => Err(e),
            Ok(sol_removed) => match self.total_sol.sub_spec(sol_removed) {
                Err(e) => Err(e),
                Ok(new_total_sol) => Ok((new_total_sol, self.stablecoin_supply)),
            },
        }
    }

    /// The totals after a swap of levercoin into stablecoin: the supply
    /// grows by the amount, the collateral stays.
    pub open spec fn levercoin_to_stablecoin_totals_spec(
        &self,
        amount_stablecoin: UFix64<6>,
    ) -> Result<(UFix64<9>, UFix64<6>), CoreError> {
        match self.stablecoin_supply.add_spec(amount_stablecoin) {
            Err(e) => Err(e),
            Ok(new_total_stablecoin) => Ok((self.total_sol, new_total_stablecoin)),
        }
    }

    /// The totals after a swap of stablecoin into levercoin: the supply
    /// shrinks by the amount, the collateral stays.
    pub open spec fn stablecoin_to_levercoin_totals_spec(
        &self,
        amount_stablecoin: UFix64<6>,
    ) -> Result<(UFix64<9>, UFix64<6>), CoreError> {
        match self.stablecoin_supply.sub_spec(amount_stablecoin) {
            Err(e) => Err(e),
            Ok(new_total_stablecoin) => Ok((self.total_sol, new_total_stablecoin)),
        }
    }

    /// The fee on minting stablecoin from `amount_lst`.
    pub open spec fn stablecoin_mint_fee_spec(
        &self,
        lst_sol_price: LstSolPrice,
        amount_lst: UFix64<9>,
    ) -> Result<FeeExtract<9>, CoreError> {
        match self.fee_mode_spec(self.stablecoin_mint_totals_spec(lst_sol_price, amount_lst)) {
            Err(e) => Err(e),
            Ok(mode) => FeeExtract::<9>::new_spec(
                self.stablecoin_fees.pair_spec(mode).mint,
                amount_lst,
            ),
        }
    }

    /// The fee on redeeming stablecoin for `amount_lst`.
    pub open spec fn stablecoin_redeem_fee_spec(
        &self,
        lst_sol_price: LstSolPrice,
        amount_lst: UFix64<9>,
    ) -> Result<FeeExtract<9>, CoreError> {
        match self.fee_mode_spec(self.stablecoin_redeem_totals_spec(lst_sol_price, amount_lst)) {
            Err(e) => Err(e),
            Ok(mode) => FeeExtract::<9>::new_spec(
                self.stablecoin_fees.pair_spec(mode).redeem,
                amount_lst,
            ),
        }
    }

    /// The fee on minting levercoin from `amount_lst`.
    pub open spec fn levercoin_mint_fee_spec(
        &self,
        lst_sol_price: LstSolPrice,
        amount_lst: UFix64<9>,
    ) -> Result<FeeExtract<9>, CoreError> {
        match self.fee_mode_spec(self.levercoin_mint_totals_spec(lst_sol_price, amount_lst)) {
            Err(e) => Err(e),
            Ok(mode) => FeeExtract::<9>::new_spec(
                self.levercoin_fees.set_spec(mode).mint,
                amount_lst,
            ),
        }
    }

    /// The fee on redeeming levercoin for `amount_lst`.
    pub open spec fn levercoin_redeem_fee_spec(
        &self,
        lst_sol_price: LstSolPrice,
        amount_lst: UFix64<9>,
    ) -> Result<FeeExtract<9>, CoreError> {
        match self.fee_mode_spec(self.levercoin_redeem_totals_spec(lst_sol_price, amount_lst)) {
            Err(e) => Err(e),
            Ok(mode) => FeeExtract::<9>::new_spec(
                self.levercoin_fees.set_spec(mode).redeem,
                amount_lst,
            ),
        }
    }

    /// The fee on swapping levercoin into `amount_stablecoin`.
    pub open spec fn levercoin_to_stablecoin_fee_spec(
        &self,
        amount_stablecoin: UFix64<6>,
    ) -> Result<FeeExtract<6>, CoreError> {
        match self.fee_mode_spec(self.levercoin_to_stablecoin_totals_spec(amount_stablecoin)) {
            Err(e) => Err(e),
            Ok(mode) => FeeExtract::<6>::new_spec(
                self.levercoin_fees.set_spec(mode).swap_to_stablecoin,
                amount_stablecoin,
            ),
        }
    }

    /// The fee on swapping `amount_stablecoin` into levercoin.
    pub open spec fn stablecoin_to_levercoin_fee_spec(
        &self,
        amount_stablecoin: UFix64<6>,
    ) -> Result<FeeExtract<6>, CoreError> {
        match self.fee_mode_spec(self.stablecoin_to_levercoin_totals_spec(amount_stablecoin)) {
            Err(e) => Err(e),
            Ok(mode) => FeeExtract::<6>::new_spec(
                self.levercoin_fees.set_spec(mode).swap_from_stablecoin,
                amount_stablecoin,
            ),
        }
    }

    /// Extracts the fee from a deposit of collateral that mints stablecoin.
    /// The mode of the fee is the worse of the current mode and the mode
    /// after the mint.
    pub fn stablecoin_mint_fee(&self, lst_sol_price: &LstSolPrice, amount_lst: UFix64<9>) -> (r:
        Result<FeeExtract<9>, CoreError>)
        ensures
            r == self.stablecoin_mint_fee_spec(*lst_sol_price, amount_lst),
            r is Ok ==> r->Ok_0.splits(amount_lst),
    {
        let new_sol = lst_sol_price.convert_sol(amount_lst, self.clock.epoch())?;
        let new_total_sol = self.total_sol.try_add(new_sol)?;
        let minted = self.lst_to_stablecoin(lst_sol_price, amount_lst)?;
        let new_total_stablecoin = minted.try_add(self.stablecoin_supply)?;
        let mode = self.fee_mode(new_total_sol, new_total_stablecoin)?;
        FeeExtract::new(self.stablecoin_fees.mint_fee(mode), amount_lst)
    }

    /// Extracts the fee from a payout of collateral that redeems
    /// stablecoin. The mode of the fee is the worse of the current mode and
    /// the mode after the redemption.
    pub fn stablecoin_redeem_fee(&self, lst_sol_price: &LstSolPrice, amount_lst: UFix64<9>) -> (r:
        Result<FeeExtract<9>, CoreError>)
        ensures
            r == self.stablecoin_redeem_fee_spec(*lst_sol_price, amount_lst),
            r is Ok ==> r->Ok_0.splits(amount_lst),
    {
        let sol_removed = lst_sol_price.convert_sol(amount_lst, self.clock.epoch())?;
        let new_total_sol = self.total_sol.try_sub(sol_removed)?;
        let redeemed = self.lst_to_stablecoin(lst_sol_price, amount_lst)?;
        let new_total_stablecoin = self.stablecoin_supply.try_sub(redeemed)?;
        let mode = self.fee_mode(new_total_sol, new_total_stablecoin)?;
        FeeExtract::new(self.stablecoin_fees.redeem_fee(mode), amount_lst)
    }

    /// Extracts the fee from a deposit of collateral that mints levercoin.
    pub fn levercoin_mint_fee(&self, lst_sol_price: &LstSolPrice, amount_lst: UFix64<9>) -> (r:
        Result<FeeExtract<9>, CoreError>)
        ensures
            r == self.levercoin_mint_fee_spec(*lst_sol_price, amount_lst),
            r is Ok ==> r->Ok_0.splits(amount_lst),
    {
        let new_sol = lst_sol_price.convert_sol(amount_lst, self.clock.epoch())?;
        let new_total_sol = self.total_sol.try_add(new_sol)?;
        let mode = self.fee_mode(new_total_sol, self.stablecoin_supply)?;
        FeeExtract::new(self.levercoin_fees.mint_fee(mode), amount_lst)
    }

    /// Extracts the fee from a payout of collateral that redeems levercoin.
    pub fn levercoin_redeem_fee(&self, lst_sol_price: &LstSolPrice, amount_lst: UFix64<9>) -> (r:
        Result<FeeExtract<9>, CoreError>)
        ensures
            r == self.levercoin_redeem_fee_spec(*lst_sol_price, amount_lst),
            r is Ok ==> r->Ok_0.splits(amount_lst),
    {
        let sol_removed = lst_sol_price.convert_sol(amount_lst, self.clock.epoch())?;
        let new_total_sol = self.total_sol.try_sub(sol_removed)?;
        let mode = self.fee_mode(new_total_sol, self.stablecoin_supply)?;
        FeeExtract::new(self.levercoin_fees.redeem_fee(mode), amount_lst)
    }

    /// Extracts the fee from the stablecoin that a swap from levercoin
    /// yields.
    pub fn levercoin_to_stablecoin_fee(&self, amount_stablecoin: UFix64<6>) -> (r: Result<
        FeeExtract<6>,
        CoreError,
    >)
        ensures
            r == self.levercoin_to_stablecoin_fee_spec(amount_stablecoin),
            r is Ok ==> r->Ok_0.splits(amount_stablecoin),
    {
        let new_total_stablecoin = self.stablecoin_supply.try_add(amount_stablecoin)?;
        let mode = self.fee_mode(self.total_sol, new_total_stablecoin)?;
        FeeExtract::new(self.levercoin_fees.swap_to_stablecoin_fee(mode), amount_stablecoin)
    }

    /// Extracts the fee from the stablecoin that a swap into levercoin
    /// supplies.
    pub fn stablecoin_to_levercoin_fee(&self, amount_stablecoin: UFix64<6>) -> (r: Result<
        FeeExtract<6>,
        CoreError,
    >)
        ensures
            r == self.stablecoin_to_levercoin_fee_spec(amount_stablecoin),
            r is Ok ==> r->Ok_0.splits(amount_stablecoin),
    {
        let new_total_stablecoin = self.stablecoin_supply.try_sub(amount_stablecoin)?;
        let mode = self.fee_mode(self.total_sol, new_total_stablecoin)?;
        FeeExtract::new(self.levercoin_fees.swap_from_stablecoin_fee(mode), amount_stablecoin)
    }

    /// The mint ceiling: the collateral at the upper bound of the price,
    /// against the lowest threshold.
    pub open spec fn max_mintable_stablecoin_spec(&self) -> Result<UFix64<6>, CoreError> {
        max_mintable_stablecoin_spec(
            self.stability_controller.stability_threshold_2,
            self.total_sol,
            self.sol_usd_price.upper,
            self.stablecoin_supply,
        )
    }

    /// The most stablecoin that can be minted before the lowest threshold
    /// is reached.
    pub fn max_mintable_stablecoin(&self) -> (r: Result<UFix64<6>, CoreError>)
        ensures
            r == self.max_mintable_stablecoin_spec(),
    {
        max_mintable_stablecoin(
            self.stability_controller.min_stability_threshold(),
            self.total_sol,
            self.sol_usd_price.upper,
            self.stablecoin_supply,
        )
    }

    /// The swap ceiling against one threshold.
    pub open spec fn max_swappable_at_spec(&self, threshold: UFix64<9>) -> Result<
        UFix64<6>,
        CoreError,
    > {
        match self.total_value_locked_spec() {
            Err(e) => Err(e),
            Ok(tvl) => max_swappable_stablecoin_spec(threshold, tvl, self.stablecoin_supply),
        }
    }

    /// The swap ceiling against the threshold under the current mode.
    pub open spec fn max_swappable_to_next_threshold_spec(&self) -> Result<UFix64<6>, CoreError> {
        match self.total_value_locked_spec() {
            Err(e) => Err(e),
            Ok(tvl) => match self.stability_controller.next_threshold_spec(self.stability_mode) {
                None => Err(CoreError::NoNextStabilityThreshold),
                Some(threshold) => max_swappable_stablecoin_spec(
                    threshold,
                    tvl,
                    self.stablecoin_supply,
                ),
            },
        }
    }

    /// The most stablecoin that a swap from levercoin can add before the
    /// threshold under the current mode is reached. In `Depeg` there is no
    /// such threshold.
    pub fn max_swappable_stablecoin_to_next_threshold(&self) -> (r: Result<UFix64<6>, CoreError>)
        ensures
            r == self.max_swappable_to_next_threshold_spec(),
    {
        let total_value_locked = self.total_value_locked()?;
        match self.stability_controller.next_stability_threshold(self.stability_mode) {
            Some(threshold) => max_swappable_stablecoin(
                threshold,
                total_value_locked,
                self.stablecoin_supply,
            ),
            None => Err(CoreError::NoNextStabilityThreshold),
        }
    }

    /// The most stablecoin that a swap from levercoin can add before the
    /// lowest threshold is reached.
    pub fn max_swappable_stablecoin(&self) -> (r: Result<UFix64<6>, CoreError>)
        ensures
            r == self.max_swappable_at_spec(self.stability_controller.stability_threshold_2),
    {
        let total_value_locked = self.total_value_locked()?;
        max_swappable_stablecoin(
            self.stability_controller.min_stability_threshold(),
            total_value_locked,
            self.stablecoin_supply,
        )
    }

    /// An amount within a ceiling is returned as it is; one over it is the
    /// given error; a ceiling that cannot be computed is its own error.
    pub open spec fn within_ceiling_spec(
        requested_amount: UFix64<6>,
        ceiling: Result<UFix64<6>, CoreError>,
        over: CoreError,
    ) -> Result<UFix64<6>, CoreError> {
        match ceiling {
            Err(e) => Err(e),
            Ok(max) => if requested_amount.bits <= max.bits {
                Ok(requested_amount)
            } else {
                Err(over)
            },
        }
    }

    /// Checks an amount of stablecoin that a swap would add against the
    /// swap ceiling. An amount that passes leaves the collateral ratio, at
    /// the lower bound of the price, at or above the lowest threshold.
    pub fn validate_stablecoin_swap_amount(&self, requested_amount: UFix64<6>) -> (r: Result<
        UFix64<6>,
        CoreError,
    >)
        ensures
            r == Self::within_ceiling_spec(
                requested_amount,
                self.max_swappable_at_spec(self.stability_controller.stability_threshold_2),
                CoreError::ExceedsMaxSwappable,
            ),
            r is Ok ==> ratio_holds_after_swap(
                self.total_value_locked_spec()->Ok_0.bits as int,
                self.stablecoin_supply.bits as int,
                requested_amount.bits as int,
                self.stability_controller.stability_threshold_2.bits as int,
            ),
    {
        let max_swappable = self.max_swappable_stablecoin()?;
        proof {
            if requested_amount.bits <= max_swappable.bits {
                lemma_swap_within_ceiling_holds_ratio(
                    self.stability_controller.stability_threshold_2,
                    self.total_value_locked_spec()->Ok_0,
                    self.stablecoin_supply,
                    requested_amount,
                );
            }
        }
        if requested_amount.bits <= max_swappable.bits {
            Ok(requested_amount)
        } else {
            Err(CoreError::ExceedsMaxSwappable)
        }
    }

    /// Checks an amount of stablecoin that a mint would add against the
    /// mint ceiling. An amount that passes leaves the collateral ratio, at
    /// the upper bound of the price, at or above the lowest threshold.
    pub fn validate_stablecoin_amount(&self, requested_amount: UFix64<6>) -> (r: Result<
        UFix64<6>,
        CoreError,
    >)
        ensures
            r == Self::within_ceiling_spec(
                requested_amount,
                self.max_mintable_stablecoin_spec(),
                CoreError::ExceedsMaxMintable,
            ),
            r is Ok ==> ratio_holds_after_mint(
                total_value_locked_spec(self.total_sol, self.sol_usd_price.upper)->Ok_0.bits as int,
                self.stablecoin_supply.bits as int,
                requested_amount.bits as int,
                self.stability_controller.stability_threshold_2.bits as int,
            ),
    {
        let max = self.max_mintable_stablecoin()?;
        proof {
            if requested_amount.bits <= max.bits {
                lemma_mint_within_ceiling_holds_ratio(
                    self.stability_controller.stability_threshold_2,
                    total_value_locked_spec(self.total_sol, self.sol_usd_price.upper)->Ok_0,
                    self.stablecoin_supply,
                    requested_amount,
                );
            }
        }
        if requested_amount.bits <= max.bits {
            Ok(requested_amount)
        } else {
            Err(CoreError::ExceedsMaxMintable)
        }
    }

    /// The net asset values for swaps: the levercoin's redeem value is the
    /// lower bound of its range, its mint value the upper.
    pub open spec fn swap_conversion_spec(&self) -> Result<SwapConversion, CoreError> {
        match self.levercoin_nav_at_spec(self.sol_usd_price.lower) {
            Err(e) => Err(e),
            Ok(redeem_nav) => match self.levercoin_nav_at_spec(self.sol_usd_price.upper) {
                Err(e) => Err(e),
                Ok(mint_nav) => match self.stablecoin_nav_spec() {
                    Err(e) => Err(e),
                    Ok(stablecoin_nav) => Ok(
                        SwapConversion {
                            stablecoin_nav,
                            levercoin_nav: PriceRange::<9> { lower: redeem_nav, upper: mint_nav },
                        },
                    ),
                },
            },
        }
    }

    /// The conversion between the two tokens. Where the price range of the
    /// context is ordered, so is the levercoin's range.
    pub fn swap_conversion(&self) -> (r: Result<SwapConversion, CoreError>)
        ensures
            r == self.swap_conversion_spec(),
            r is Ok && self.sol_usd_price.wf() ==> r->Ok_0.levercoin_nav.wf(),
    {
        let redeem_nav = self.levercoin_redeem_nav()?;
        let mint_nav = self.levercoin_mint_nav()?;
        proof {
            if self.sol_usd_price.wf() {
                lemma_levercoin_nav_monotonic(
                    self.total_sol,
                    self.sol_usd_price.lower,
                    self.sol_usd_price.upper,
                    self.stablecoin_supply,
                    self.stablecoin_nav_spec()->Ok_0,
                    self.levercoin_supply->Some_0,
                );
            }
        }
        let levercoin_nav = PriceRange::new(redeem_nav, mint_nav);
        Ok(SwapConversion::new(self.stablecoin_nav()?, levercoin_nav))
    }

    /// The conversion of raw SOL: a collateral asset priced at 1.0 SOL.
    pub open spec fn sol_conversion_spec(&self) -> Conversion {
        Conversion {
            usd_sol_price: self.sol_usd_price,
            lst_sol_price: UFix64::<9> { bits: UNIT_9 },
        }
    }

    /// The stablecoin that an amount of raw SOL buys.
    pub fn sol_to_stablecoin(&self, amount_sol: UFix64<9>) -> (r: Result<UFix64<6>, CoreError>)
        ensures
            r == (match self.stablecoin_nav_spec() {
                Err(e) => Err(e),
                Ok(nav) => self.sol_conversion_spec().lst_to_token_spec(amount_sol, nav),
            }),
    {
        let nav = self.stablecoin_nav()?;
        proof {
            lemma_pow10_values();
        }
        let conversion = Conversion::new(self.sol_usd_price, UFix64::one());
        conversion.lst_to_token(amount_sol, nav)
    }

    /// The levercoin that an amount of raw SOL buys.
    pub fn sol_to_levercoin(&self, amount_sol: UFix64<9>) -> (r: Result<UFix64<6>, CoreError>)
        ensures
            r == (match self.levercoin_nav_at_spec(self.sol_usd_price.upper) {
                Err(e) => Err(e),
                Ok(nav) => self.sol_conversion_spec().lst_to_token_spec(amount_sol, nav),
            }),
    {
        let nav = self.levercoin_mint_nav()?;
        proof {
            lemma_pow10_values();
        }
        let conversion = Conversion::new(self.sol_usd_price, UFix64::one());
        conversion.lst_to_token(amount_sol, nav)
    }

    /// The value of the stability pool: its stablecoin at the stablecoin's
    /// net asset value, its levercoin at the levercoin's mint value.
    pub open spec fn stability_pool_cap_spec(
        &self,
        stablecoin_in_pool: UFix64<6>,
        levercoin_in_pool: UFix64<6>,
    ) -> Result<UFix64<6>, CoreError> {
        match self.stablecoin_nav_spec() {
            Err(e) => Err(e),
            Ok(stablecoin_nav) => match self.levercoin_nav_at_spec(self.sol_usd_price.upper) {
                Err(e) => Err(e),
                Ok(levercoin_nav) => stability_pool_cap_spec(
                    stablecoin_nav,
                    stablecoin_in_pool,
                    levercoin_nav,
                    levercoin_in_pool,
                ),
            },
        }
    }

    /// The total value of the stablecoin and the levercoin in the stability
    /// pool.
    pub fn stability_pool_cap(
        &self,
        stablecoin_in_pool: UFix64<6>,
        levercoin_in_pool: UFix64<6>,
    ) -> (r: Result<UFix64<6>, CoreError>)
        ensures
            r == self.stability_pool_cap_spec(stablecoin_in_pool, levercoin_in_pool),
    {
        let stablecoin_nav = self.stablecoin_nav()?;
        let levercoin_nav = self.levercoin_mint_nav()?;
        stability_pool_cap(stablecoin_nav, stablecoin_in_pool, levercoin_nav, levercoin_in_pool)
    }
}

/// Where the lowest threshold is at most 1.0, the stablecoin's net asset
/// value in `Depeg` is the collateral ratio, and lies strictly under 1.0.
pub proof fn lemma_depeg_nav_under_par(ctx: ExchangeContext)
    requires
        ctx.wf(),
        ctx.stability_mode == StabilityMode::Depeg,
        ctx.stability_controller.stability_threshold_2.bits <= UNIT_9,
    ensures
        ctx.stablecoin_nav_spec() == Ok::<UFix64<9>, CoreError>(ctx.collateral_ratio),
        ctx.collateral_ratio.bits < UNIT_9,
{
}

/// In every mode but `Depeg` the stablecoin's net asset value is exactly
/// 1.0, whatever the supply and the collateral.
pub proof fn lemma_stablecoin_nav_at_par(ctx: ExchangeContext)
    requires
        ctx.stability_mode != StabilityMode::Depeg,
    ensures
        ctx.stablecoin_nav_spec() == Ok::<UFix64<9>, CoreError>(UFix64::<9> { bits: UNIT_9 }),
{
}

} // verus!
