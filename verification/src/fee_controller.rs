//! Fee schedules by stability mode, and the split of an amount into fee and
//! remainder.

use crate::error::CoreError;
use crate::fixed_point::{ceil_mul_div, ceil_mul_div_spec, UFix64, UNIT_4};
use crate::stability_mode::StabilityMode;
use vstd::prelude::*;

verus! {

/// The fee rates of minting and redeeming in one stability mode.
#[derive(Clone, Copy, Debug, PartialEq, Eq)]
pub struct FeePair {
    pub mint: UFix64<4>,
    pub redeem: UFix64<4>,
}

impl FeePair {
    pub fn new(mint: UFix64<4>, redeem: UFix64<4>) -> (r: Self)
        ensures
            r.mint == mint,
            r.redeem == redeem,
    {
        FeePair { mint, redeem }
    }
}

/// The fee schedule of the stablecoin: one pair of rates for each mode.
#[derive(Clone, Copy, Debug, PartialEq, Eq)]
pub struct StablecoinFees {
    pub stable: FeePair,
    pub decay: FeePair,
    pub depeg: FeePair,
}

impl StablecoinFees {
    pub fn new(stable: FeePair, decay: FeePair, depeg: FeePair) -> (r: Self)
        ensures
            r.stable == stable,
            r.decay == decay,
            r.depeg == depeg,
    {
        StablecoinFees { stable, decay, depeg }
    }

    /// The pair of rates that applies in a mode.
    pub open spec fn pair_spec(&self, mode: StabilityMode) -> FeePair {
        match mode {
            StabilityMode::Stable => self.stable,
            StabilityMode::Decay => self.decay,
            StabilityMode::Depeg => self.depeg,
        }
    }

    fn pair(&self, mode: StabilityMode) -> (r: FeePair)
        ensures
            r == self.pair_spec(mode),
    {
        match mode {
            StabilityMode::Stable => self.stable,
            StabilityMode::Decay => self.decay,
            StabilityMode::Depeg => self.depeg,
        }
    }

    /// The rate charged on minting stablecoin in a mode.
    pub fn mint_fee(&self, mode: StabilityMode) -> (r: UFix64<4>)
        ensures
            r == self.pair_spec(mode).mint,
    {
        self.pair(mode).mint
    }

    /// The rate charged on redeeming stablecoin in a mode.
    pub fn redeem_fee(&self, mode: StabilityMode) -> (r: UFix64<4>)
        ensures
            r == self.pair_spec(mode).redeem,
    {
        self.pair(mode).redeem
    }
}

/// The fee rates of the four levercoin operations in one stability mode.
#[derive(Clone, Copy, Debug, PartialEq, Eq)]
pub struct LevercoinFeeSet {
    pub mint: UFix64<4>,
    pub redeem: UFix64<4>,
    pub swap_to_stablecoin: UFix64<4>,
    pub swap_from_stablecoin: UFix64<4>,
}

impl LevercoinFeeSet {
    pub fn new(
        mint: UFix64<4>,
        redeem: UFix64<4>,
        swap_to_stablecoin: UFix64<4>,
        swap_from_stablecoin: UFix64<4>,
    ) -> (r: Self)
        ensures
            r.mint == mint,
            r.redeem == redeem,
            r.swap_to_stablecoin == swap_to_stablecoin,
            r.swap_from_stablecoin == swap_from_stablecoin,
    {
        LevercoinFeeSet { mint, redeem, swap_to_stablecoin, swap_from_stablecoin }
    }
}

/// The fee schedule of the levercoin: one set of rates for each mode.
#[derive(Clone, Copy, Debug, PartialEq, Eq)]
pub struct LevercoinFees {
    pub stable: LevercoinFeeSet,
    pub decay: LevercoinFeeSet,
    pub depeg: LevercoinFeeSet,
}

impl LevercoinFees {
    pub fn new(stable: LevercoinFeeSet, decay: LevercoinFeeSet, depeg: LevercoinFeeSet) -> (r:
        Self)
        ensures
            r.stable == stable,
            r.decay == decay,
            r.depeg == depeg,
    {
        LevercoinFees { stable, decay, depeg }
    }

    /// The set of rates that applies in a mode.
    pub open spec fn set_spec(&self, mode: StabilityMode) -> LevercoinFeeSet {
        match mode {
            StabilityMode::Stable => self.stable,
            StabilityMode::Decay => self.decay,
            StabilityMode::Depeg => self.depeg,
        }
    }

    fn set(&self, mode: StabilityMode) -> (r: LevercoinFeeSet)
        ensures
            r == self.set_spec(mode),
    {
        match mode {
            StabilityMode::Stable => self.stable,
            StabilityMode::Decay => self.decay,
            StabilityMode::Depeg => self.depeg,
        }
    }

    /// The rate charged on minting levercoin in a mode.
    pub fn mint_fee(&self, mode: StabilityMode) -> (r: UFix64<4>)
        ensures
            r == self.set_spec(mode).mint,
    {
        self.set(mode).mint
    }

    /// The rate charged on redeeming levercoin in a mode.
    pub fn redeem_fee(&self, mode: StabilityMode) -> (r: UFix64<4>)
        ensures
            r == self.set_spec(mode).redeem,
    {
        self.set(mode).redeem
    }

    /// The rate charged on swapping levercoin into stablecoin in a mode.
    pub fn swap_to_stablecoin_fee(&self, mode: StabilityMode) -> (r: UFix64<4>)
        ensures
            r == self.set_spec(mode).swap_to_stablecoin,
    {
        self.set(mode).swap_to_stablecoin
    }

    /// The rate charged on swapping stablecoin into levercoin in a mode.
    pub fn swap_from_stablecoin_fee(&self, mode: StabilityMode) -> (r: UFix64<4>)
        ensures
            r == self.set_spec(mode).swap_from_stablecoin,
    {
        self.set(mode).swap_from_stablecoin
    }
}

/// An amount split into the fee taken from it and what is left.
#[derive(Clone, Copy, Debug, PartialEq, Eq)]
pub struct FeeExtract<const EXP: u8> {
    pub fees_extracted: UFix64<EXP>,
    pub amount_remaining: UFix64<EXP>,
}

impl<const EXP: u8> FeeExtract<EXP> {
    /// The two parts add up to `amount_in`.
    pub open spec fn splits(&self, amount_in: UFix64<EXP>) -> bool {
        self.fees_extracted.bits + self.amount_remaining.bits == amount_in.bits
    }

    /// The fee is `amount_in * fee` rounded up to a unit of the amount; the
    /// remainder is the rest.
    pub open spec fn new_spec(fee: UFix64<4>, amount_in: UFix64<EXP>) -> Result<Self, CoreError> {
        match ceil_mul_div_spec(amount_in.bits as int, fee.bits as int, UNIT_4 as int) {
            Err(e) => Err(e),
            Ok(fees) => if fees > amount_in.bits {
                Err(CoreError::ArithmeticUnderflow)
            } else {
                Ok(
                    FeeExtract::<EXP> {
                        fees_extracted: UFix64::<EXP> { bits: fees },
                        amount_remaining: UFix64::<EXP> { bits: (amount_in.bits - fees) as u64 },
                    },
                )
            },
        }
    }

    /// Takes the fee at rate `fee` out of `amount_in`. A rate of at most
    /// 1.0 always succeeds; a higher one fails once the fee passes the
    /// amount.
    pub fn new(fee: UFix64<4>, amount_in: UFix64<EXP>) -> (r: Result<Self, CoreError>)
        ensures
            r == Self::new_spec(fee, amount_in),
            r is Ok ==> r->Ok_0.splits(amount_in),
            fee.bits <= UNIT_4 ==> r is Ok,
    {
        proof {
            lemma_fee_within_amount(amount_in.bits as int, fee.bits as int);
        }
        let fees = ceil_mul_div(amount_in.bits, fee.bits, UNIT_4)?;
        if fees > amount_in.bits {
            Err(CoreError::ArithmeticUnderflow)
        } else {
            Ok(
                FeeExtract {
                    fees_extracted: UFix64::new(fees),
                    amount_remaining: UFix64::new(amount_in.bits - fees),
                },
            )
        }
    }
}

/// At a rate of at most 1.0 the fee, rounded up, stays within the amount.
pub proof fn lemma_fee_within_amount(amount: int, fee: int)
    requires
        0 <= amount,
        0 <= fee,
    ensures
        0 <= (amount * fee + UNIT_4 - 1) / (UNIT_4 as int),
        fee <= UNIT_4 ==> (amount * fee + UNIT_4 - 1) / (UNIT_4 as int) <= amount,
{
    assert(0 <= (amount * fee + 10_000 - 1) / 10_000 && (fee <= 10_000 ==> (amount * fee + 10_000
        - 1) / 10_000 <= amount)) by (nonlinear_arith)
        requires
            0 <= amount,
            0 <= fee,
    ;
}

} // verus!
