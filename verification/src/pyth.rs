//! The price oracle: a raw update is checked for age and confidence and
//! becomes a price range.

use crate::error::CoreError;
use crate::fixed_point::{UFix64, UNIT_8};
use crate::solana_clock::SolanaClock;
use vstd::prelude::*;

verus! {

/// A lower and an upper bound on a price, at one scale.
#[derive(Clone, Copy, Debug, PartialEq, Eq)]
pub struct PriceRange<const EXP: u8> {
    pub lower: UFix64<EXP>,
    pub upper: UFix64<EXP>,
}

impl<const EXP: u8> PriceRange<EXP> {
    /// The lower bound does not pass the upper.
    pub open spec fn wf(&self) -> bool {
        self.lower.bits <= self.upper.bits
    }

    pub fn new(lower: UFix64<EXP>, upper: UFix64<EXP>) -> (r: Self)
        ensures
            r.lower == lower,
            r.upper == upper,
    {
        PriceRange { lower, upper }
    }
}

/// The exponent that an update must carry: prices have eight fractional
/// digits.
pub const PRICE_EXPONENT: i32 = -8;

/// How old an update may be and how wide its confidence interval, as a
/// fraction of the price.
#[derive(Clone, Copy, Debug, PartialEq, Eq)]
pub struct OracleConfig<const EXP: u8> {
    pub interval_secs: u64,
    pub conf_tolerance: UFix64<EXP>,
}

impl<const EXP: u8> OracleConfig<EXP> {
    pub fn new(interval_secs: u64, conf_tolerance: UFix64<EXP>) -> (r: Self)
        ensures
            r.interval_secs == interval_secs,
            r.conf_tolerance == conf_tolerance,
    {
        OracleConfig { interval_secs, conf_tolerance }
    }
}

/// A raw price update as the oracle published it: the price and its
/// confidence as integers times ten to the `exponent`, and the Unix time of
/// publication.
#[derive(Clone, Copy, Debug, PartialEq, Eq)]
pub struct PriceUpdate {
    pub price: i64,
    pub conf: u64,
    pub exponent: i32,
    pub publish_time: i64,
}

impl PriceUpdate {
    pub fn new(price: i64, conf: u64, exponent: i32, publish_time: i64) -> (r: Self)
        ensures
            r.price == price,
            r.conf == conf,
            r.exponent == exponent,
            r.publish_time == publish_time,
    {
        PriceUpdate { price, conf, exponent, publish_time }
    }

    /// The update was published more than `interval_secs` before `now`.
    pub open spec fn is_stale(&self, now: i64, interval_secs: u64) -> bool {
        now - self.publish_time > interval_secs
    }

    /// The update carries a positive price at the expected scale.
    pub open spec fn is_valid(&self) -> bool {
        self.price > 0 && self.exponent == PRICE_EXPONENT
    }

    /// The confidence is more than `tolerance` times the price, or more
    /// than the price itself.
    pub open spec fn conf_exceeds(&self, tolerance: UFix64<8>) -> bool {
        self.conf * UNIT_8 > self.price * tolerance.bits || self.conf > self.price
    }
}

/// The price range of an update: staleness is checked first, then the
/// price itself, then the confidence; the range is the price less and plus
/// the confidence.
pub open spec fn query_pyth_price_spec(
    clock: SolanaClock,
    update: PriceUpdate,
    config: OracleConfig<8>,
) -> Result<PriceRange<8>, CoreError> {
    if update.is_stale(clock.unix_timestamp, config.interval_secs) {
        Err(CoreError::StalePrice)
    } else if !update.is_valid() {
        Err(CoreError::InvalidPrice)
    } else if update.conf_exceeds(config.conf_tolerance) {
        Err(CoreError::ConfidenceExceeded)
    } else {
        Ok(
            PriceRange::<8> {
                lower: UFix64::<8> { bits: (update.price - update.conf) as u64 },
                upper: UFix64::<8> { bits: (update.price + update.conf) as u64 },
            },
        )
    }
}

/// Checks an oracle update against the clock and the configuration and
/// gives its price range. An update that is too old fails whatever else it
/// holds.
pub fn query_pyth_price(clock: &SolanaClock, update: &PriceUpdate, config: OracleConfig<8>) -> (r:
    Result<PriceRange<8>, CoreError>)
    ensures
        r == query_pyth_price_spec(*clock, *update, config),
        r is Ok ==> r->Ok_0.wf(),
        update.is_stale(clock.unix_timestamp, config.interval_secs) ==> r == Err::<
            PriceRange<8>,
            CoreError,
        >(CoreError::StalePrice),
{
    let age: i128 = (clock.unix_timestamp as i128) - (update.publish_time as i128);
    if age > config.interval_secs as i128 {
        return Err(CoreError::StalePrice);
    }
    if update.price <= 0 || update.exponent != PRICE_EXPONENT {
        return Err(CoreError::InvalidPrice);
    }
    let price: u64 = update.price as u64;
    assert(price * config.conf_tolerance.bits <= 0xFFFF_FFFF_FFFF_FFFF * 0xFFFF_FFFF_FFFF_FFFF)
        by (nonlinear_arith)
        requires
            price <= 0xFFFF_FFFF_FFFF_FFFF,
            config.conf_tolerance.bits <= 0xFFFF_FFFF_FFFF_FFFF,
    ;
    assert(update.conf * UNIT_8 <= 0xFFFF_FFFF_FFFF_FFFF * 100_000_000) by (nonlinear_arith)
        requires
            update.conf <= 0xFFFF_FFFF_FFFF_FFFF,
            UNIT_8 == 100_000_000,
    ;
    let widest: u128 = (price as u128) * (config.conf_tolerance.bits as u128);
    let width: u128 = (update.conf as u128) * (UNIT_8 as u128);
    if width > widest || update.conf > price {
        return Err(CoreError::ConfidenceExceeded);
    }
    Ok(PriceRange { lower: UFix64::new(price - update.conf), upper: UFix64::new(price + update.conf) })
}

} // verus!
