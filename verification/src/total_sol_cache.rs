//! The cached total of backing collateral, tagged with the epoch in which
//! it was computed.

use crate::error::CoreError;
use crate::fixed_point::UFix64;
use vstd::prelude::*;

verus! {

/// An aggregate of the collateral, valid for one epoch only.
#[derive(Clone, Copy, Debug, PartialEq, Eq)]
pub struct TotalSolCache {
    pub current_update_epoch: u64,
    pub total_sol: UFix64<9>,
}

impl TotalSolCache {
    pub fn new(current_update_epoch: u64, total_sol: UFix64<9>) -> (r: Self)
        ensures
            r.current_update_epoch == current_update_epoch,
            r.total_sol == total_sol,
    {
        TotalSolCache { current_update_epoch, total_sol }
    }

    /// The cached total in its own epoch, a staleness error in any other.
    pub open spec fn validated_spec(&self, current_epoch: u64) -> Result<UFix64<9>, CoreError> {
        if self.current_update_epoch == current_epoch {
            Ok(self.total_sol)
        } else {
            Err(CoreError::StaleCollateralCache)
        }
    }

    /// The cached total, if it was computed in `current_epoch`.
    pub fn get_validated(&self, current_epoch: u64) -> (r: Result<UFix64<9>, CoreError>)
        ensures
            r == self.validated_spec(current_epoch),
    {
        if self.current_update_epoch == current_epoch {
            Ok(self.total_sol)
        } else {
            Err(CoreError::StaleCollateralCache)
        }
    }
}

} // verus!
