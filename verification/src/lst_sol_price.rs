//! The price of a collateral asset in the base asset, tagged with the epoch
//! in which it was computed.

use crate::error::CoreError;
use crate::fixed_point::{floor_mul_div, floor_mul_div_spec, UFix64, UNIT_9};
use vstd::prelude::*;

verus! {

/// What one unit of a liquid staking token is worth in SOL, in one epoch.
#[derive(Clone, Copy, Debug, PartialEq, Eq)]
pub struct LstSolPrice {
    pub price: UFix64<9>,
    pub epoch: u64,
}

impl LstSolPrice {
    pub fn new(price: UFix64<9>, epoch: u64) -> (r: Self)
        ensures
            r.price == price,
            r.epoch == epoch,
    {
        LstSolPrice { price, epoch }
    }

    /// The price in its own epoch, a staleness error in any other.
    pub open spec fn epoch_price_spec(&self, current_epoch: u64) -> Result<UFix64<9>, CoreError> {
        if self.epoch == current_epoch {
            Ok(self.price)
        } else {
            Err(CoreError::StaleLstPrice)
        }
    }

    /// An amount of the token in SOL: the amount times the price, rounded
    /// down.
    pub open spec fn convert_sol_spec(&self, amount_lst: UFix64<9>, current_epoch: u64) -> Result<
        UFix64<9>,
        CoreError,
    > {
        match self.epoch_price_spec(current_epoch) {
            Err(e) => Err(e),
            Ok(price) => UFix64::<9>::lift_result(
                floor_mul_div_spec(amount_lst.bits as int, price.bits as int, UNIT_9 as int),
            ),
        }
    }

    /// The price, if it was computed in `current_epoch`.
    pub fn get_epoch_price(&self, current_epoch: u64) -> (r: Result<UFix64<9>, CoreError>)
        ensures
            r == self.epoch_price_spec(current_epoch),
    {
        if self.epoch == current_epoch {
            Ok(self.price)
        } else {
            Err(CoreError::StaleLstPrice)
        }
    }

    /// What `amount_lst` is worth in SOL at the price of `current_epoch`.
    pub fn convert_sol(&self, amount_lst: UFix64<9>, current_epoch: u64) -> (r: Result<
        UFix64<9>,
        CoreError,
    >)
        ensures
            r == self.convert_sol_spec(amount_lst, current_epoch),
    {
        let price = self.get_epoch_price(current_epoch)?;
        match floor_mul_div(amount_lst.bits, price.bits, UNIT_9) {
            Ok(bits) => Ok(UFix64::new(bits)),
            Err(e) => Err(e),
        }
    }
}

} // verus!
