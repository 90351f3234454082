//! The fee of a quote as a fraction of what it was charged on.

use crate::error::CoreError;
use crate::fixed_point::{floor_mul_div, floor_mul_div_spec, pow10, UFix64, MAX_SCALE};
use vstd::prelude::*;

verus! {

/// A decimal fraction: `mantissa / 10^scale`.
#[derive(Clone, Copy, Debug, PartialEq, Eq)]
pub struct FeePct {
    pub mantissa: i64,
    pub scale: u32,
}

impl FeePct {
    /// The fraction zero, at scale zero.
    pub fn zero() -> (r: Self)
        ensures
            r.mantissa == 0,
            r.scale == 0,
    {
        FeePct { mantissa: 0, scale: 0 }
    }
}

/// `fees_extracted / total_in`, rounded down to the scale of the two
/// amounts.
pub open spec fn fee_pct_spec<const EXP: u8>(
    fees_extracted: UFix64<EXP>,
    total_in: UFix64<EXP>,
) -> Result<FeePct, CoreError> {
    match floor_mul_div_spec(
        fees_extracted.bits as int,
        pow10(EXP as nat) as int,
        total_in.bits as int,
    ) {
        Err(e) => Err(e),
        Ok(pct) => if pct > i64::MAX {
            Err(CoreError::ArithmeticOverflow)
        } else {
            Ok(FeePct { mantissa: pct as i64, scale: EXP as u32 })
        },
    }
}

/// The fee as a fraction of the amount it was taken from. Fails with
/// `DivisionByZero` on an amount of zero, and with `ArithmeticOverflow`
/// where the fraction does not fit a signed 64-bit mantissa.
pub fn fee_pct_decimal<const EXP: u8>(fees_extracted: UFix64<EXP>, total_in: UFix64<EXP>) -> (r:
    Result<FeePct, CoreError>)
    requires
        EXP <= MAX_SCALE,
    ensures
        r == fee_pct_spec(fees_extracted, total_in),
{
    let one = UFix64::<EXP>::one();
    let pct = floor_mul_div(fees_extracted.bits, one.bits, total_in.bits)?;
    if pct > i64::MAX as u64 {
        Err(CoreError::ArithmeticOverflow)
    } else {
        Ok(FeePct { mantissa: pct as i64, scale: EXP as u32 })
    }
}

} // verus!
