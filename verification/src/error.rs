//! The failures of the core. Each aborts the request that met it.

use vstd::prelude::*;

verus! {

#[derive(Clone, Copy, Debug, PartialEq, Eq, Structural)]
pub enum CoreError {
    /// The oracle update was published before the staleness window.
    StalePrice,
    /// The oracle's confidence interval is wider than the tolerance allows.
    ConfidenceExceeded,
    /// The oracle update carries no positive price at the expected scale.
    InvalidPrice,
    /// The collateral-asset price was computed in another epoch.
    StaleLstPrice,
    /// The cached aggregate collateral was computed in another epoch.
    StaleCollateralCache,
    /// A checked operation passed the top of its numeric range.
    ArithmeticOverflow,
    /// A checked subtraction would have gone below zero.
    ArithmeticUnderflow,
    /// A quotient was asked for with a zero divisor.
    DivisionByZero,
    /// A levercoin operation was asked for with no levercoin mint.
    MissingLevercoinSupply,
    /// There is no threshold below the worst stability mode.
    NoNextStabilityThreshold,
    /// The amount of stablecoin asked for is over the mint ceiling.
    ExceedsMaxMintable,
    /// The amount of stablecoin asked for is over the swap ceiling.
    ExceedsMaxSwappable,
    /// A stored value carries another exponent than the scale asked for.
    ExponentMismatch,
    /// The first stability threshold is not above the second.
    InvalidStabilityThresholds,
    /// Pool shares cannot be redeemed for stablecoin alone while the pool
    /// holds levercoin.
    LevercoinInPool,
    /// An account that the quote needs has not been supplied.
    AccountNotSet,
    /// No quote exists between the two mints.
    UnsupportedPair,
}

} // verus!
