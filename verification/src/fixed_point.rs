//! Unsigned decimal fixed-point quantities.
//!
//! A `UFix64<EXP>` stands for `bits / 10^EXP`. The scale is part of the
//! type, so only quantities of one scale add or compare directly; a change
//! of scale is an explicit, checked conversion.

use crate::error::CoreError;
use fix::muldiv::MulDiv;
use vstd::prelude::*;

verus! {

/// Ten to the power `e`.
pub open spec fn pow10(e: nat) -> nat
    decreases e,
{
    if e == 0 {
        1
    } else {
        10 * pow10((e - 1) as nat)
    }
}

/// The largest scale whose unit still fits in 64 bits.
pub const MAX_SCALE: u8 = 19;

/// The bits of 1.0 at four fractional digits: fee rates.
pub const UNIT_4: u64 = 10_000;

/// The bits of 1.0 at six fractional digits: token amounts.
pub const UNIT_6: u64 = 1_000_000;

/// The bits of 1.0 at eight fractional digits: oracle prices.
pub const UNIT_8: u64 = 100_000_000;

/// The bits of 1.0 at nine fractional digits: collateral, values, ratios.
pub const UNIT_9: u64 = 1_000_000_000;

/// `floor(val * num / denom)` where it fits in 64 bits.
pub open spec fn mul_div_floor_spec(val: int, num: int, denom: int) -> Option<u64> {
    if denom > 0 && val * num / denom <= u64::MAX {
        Some((val * num / denom) as u64)
    } else {
        None
    }
}

/// `ceil(val * num / denom)` where it fits in 64 bits.
pub open spec fn mul_div_ceil_spec(val: int, num: int, denom: int) -> Option<u64> {
    if denom > 0 && (val * num + denom - 1) / denom <= u64::MAX {
        Some(((val * num + denom - 1) / denom) as u64)
    } else {
        None
    }
}

/// Calls `MulDiv::mul_div_floor` of `fix::Fix` over `u64` bits. The scale of
/// a `Fix` is a type-level tag that takes no part in the computation, which
/// multiplies in 128 bits, divides rounding down, and gives `None` when the
/// quotient does not fit in 64 bits. The call panics on a zero divisor,
/// which the precondition leaves out.
#[verifier::external_body]
fn fix_mul_div_floor(val: u64, num: u64, denom: u64) -> (r: Option<u64>)
    requires
        denom != 0,
    ensures
        r == mul_div_floor_spec(val as int, num as int, denom as int),
{
    let v = fix::Fix::<u64, fix::typenum::U10, fix::typenum::N9>::new(val);
    let n = fix::Fix::<u64, fix::typenum::U10, fix::typenum::N9>::new(num);
    let d = fix::Fix::<u64, fix::typenum::U10, fix::typenum::N9>::new(denom);
    v.mul_div_floor(n, d).map(|q| q.bits)
}

/// Calls `MulDiv::mul_div_ceil` of `fix::Fix` over `u64` bits: as
/// `fix_mul_div_floor`, but the quotient is rounded up.
#[verifier::external_body]
fn fix_mul_div_ceil(val: u64, num: u64, denom: u64) -> (r: Option<u64>)
    requires
        denom != 0,
    ensures
        r == mul_div_ceil_spec(val as int, num as int, denom as int),
{
    let v = fix::Fix::<u64, fix::typenum::U10, fix::typenum::N9>::new(val);
    let n = fix::Fix::<u64, fix::typenum::U10, fix::typenum::N9>::new(num);
    let d = fix::Fix::<u64, fix::typenum::U10, fix::typenum::N9>::new(denom);
    v.mul_div_ceil(n, d).map(|q| q.bits)
}

/// `floor(val * num / denom)` as a result: a zero divisor and a quotient
/// beyond 64 bits each have their own error.
pub open spec fn floor_mul_div_spec(val: int, num: int, denom: int) -> Result<u64, CoreError> {
    if denom == 0 {
        Err(CoreError::DivisionByZero)
    } else if val * num / denom > u64::MAX {
        Err(CoreError::ArithmeticOverflow)
    } else {
        Ok((val * num / denom) as u64)
    }
}

/// `ceil(val * num / denom)` as a result: a zero divisor and a quotient
/// beyond 64 bits each have their own error.
pub open spec fn ceil_mul_div_spec(val: int, num: int, denom: int) -> Result<u64, CoreError> {
    if denom == 0 {
        Err(CoreError::DivisionByZero)
    } else if (val * num + denom - 1) / denom > u64::MAX {
        Err(CoreError::ArithmeticOverflow)
    } else {
        Ok(((val * num + denom - 1) / denom) as u64)
    }
}

/// `val * num / denom` rounded down, or the error that stopped it.
pub fn floor_mul_div(val: u64, num: u64, denom: u64) -> (r: Result<u64, CoreError>)
    ensures
        r == floor_mul_div_spec(val as int, num as int, denom as int),
{
    if denom == 0 {
        Err(CoreError::DivisionByZero)
    } else {
        match fix_mul_div_floor(val, num, denom) {
            Some(q) => Ok(q),
            None => Err(CoreError::ArithmeticOverflow),
        }
    }
}

/// `val * num / denom` rounded up, or the error that stopped it.
pub fn ceil_mul_div(val: u64, num: u64, denom: u64) -> (r: Result<u64, CoreError>)
    ensures
        r == ceil_mul_div_spec(val as int, num as int, denom as int),
{
    if denom == 0 {
        Err(CoreError::DivisionByZero)
    } else {
        match fix_mul_div_ceil(val, num, denom) {
            Some(q) => Ok(q),
            None => Err(CoreError::ArithmeticOverflow),
        }
    }
}

/// An unsigned quantity with `EXP` decimal fractional digits.
#[derive(Clone, Copy, Debug, PartialEq, Eq)]
pub struct UFix64<const EXP: u8> {
    pub bits: u64,
}

impl<const EXP: u8> UFix64<EXP> {
    /// The bits that stand for 1.0 at this scale.
    pub open spec fn one_bits() -> nat {
        pow10(EXP as nat)
    }

    pub fn new(bits: u64) -> (r: Self)
        ensures
            r.bits == bits,
    {
        UFix64 { bits }
    }

    pub fn zero() -> (r: Self)
        ensures
            r.bits == 0,
    {
        UFix64 { bits: 0 }
    }

    /// A stored value as a quantity of this scale: its bits, where its
    /// exponent is the negative of the scale, and a mismatch otherwise.
    pub open spec fn from_stored_spec(bits: u64, exp: i8) -> Result<Self, CoreError> {
        if exp == -(EXP as int) {
            Ok(UFix64::<EXP> { bits })
        } else {
            Err(CoreError::ExponentMismatch)
        }
    }

    /// Reads a value that was stored as bits and a decimal exponent. The
    /// exponent must be that of this scale: a value of another scale is
    /// refused, never rescaled.
    pub fn from_stored(bits: u64, exp: i8) -> (r: Result<Self, CoreError>)
        ensures
            r == Self::from_stored_spec(bits, exp),
    {
        if exp <= 0 && EXP <= 128 && (EXP as i16) == -(exp as i16) {
            Ok(UFix64 { bits })
        } else {
            Err(CoreError::ExponentMismatch)
        }
    }

    /// The quantity 1.0.
    pub fn one() -> (r: Self)
        requires
            EXP <= MAX_SCALE,
        ensures
            r.bits == Self::one_bits(),
    {
        let mut bits: u64 = 1;
        let mut i: u8 = 0;
        while i < EXP
            invariant
                i <= EXP <= MAX_SCALE,
                bits == pow10(i as nat),
            decreases EXP - i,
        {
            proof {
                reveal_with_fuel(pow10, 2);
                lemma_pow10_values();
                lemma_pow10_monotonic(i as nat, 18);
            }
            bits = bits * 10;
            i = i + 1;
        }
        UFix64 { bits }
    }

    /// The sum, or `None` where it passes the 64-bit range.
    pub fn checked_add(&self, v: &Self) -> (r: Option<Self>)
        ensures
            r == (if self.bits + v.bits <= u64::MAX {
                Some(UFix64::<EXP> { bits: (self.bits + v.bits) as u64 })
            } else {
                None
            }),
    {
        match self.bits.checked_add(v.bits) {
            Some(bits) => Some(UFix64 { bits }),
            None => None,
        }
    }

    /// The difference, or `None` where `v` is the larger.
    pub fn checked_sub(&self, v: &Self) -> (r: Option<Self>)
        ensures
            r == (if self.bits >= v.bits {
                Some(UFix64::<EXP> { bits: (self.bits - v.bits) as u64 })
            } else {
                None
            }),
    {
        match self.bits.checked_sub(v.bits) {
            Some(bits) => Some(UFix64 { bits }),
            None => None,
        }
    }

    /// `self * num / denom` rounded down, at the scale of `self`. `None`
    /// where `denom` is zero or the quotient passes the 64-bit range.
    pub fn mul_div_floor<const R: u8>(self, num: UFix64<R>, denom: UFix64<R>) -> (r: Option<Self>)
        ensures
            r == Self::lift(mul_div_floor_spec(self.bits as int, num.bits as int, denom.bits as int)),
    {
        match floor_mul_div(self.bits, num.bits, denom.bits) {
            Ok(bits) => Some(UFix64 { bits }),
            Err(_) => None,
        }
    }

    /// `self * num / denom` rounded up, at the scale of `self`. `None`
    /// where `denom` is zero or the quotient passes the 64-bit range.
    pub fn mul_div_ceil<const R: u8>(self, num: UFix64<R>, denom: UFix64<R>) -> (r: Option<Self>)
        ensures
            r == Self::lift(mul_div_ceil_spec(self.bits as int, num.bits as int, denom.bits as int)),
    {
        match ceil_mul_div(self.bits, num.bits, denom.bits) {
            Ok(bits) => Some(UFix64 { bits }),
            Err(_) => None,
        }
    }

    /// This quantity at `to` fractional digits: `bits * 10^to / 10^EXP`,
    /// rounded down.
    pub open spec fn convert_spec(self, to: nat) -> Option<u64> {
        mul_div_floor_spec(pow10(to) as int, self.bits as int, pow10(EXP as nat) as int)
    }

    /// The same quantity at another scale. Digits that the new scale cannot
    /// hold are dropped; `None` where the bits would pass the 64-bit range.
    pub fn checked_convert<const TO: u8>(self) -> (r: Option<UFix64<TO>>)
        requires
            EXP <= MAX_SCALE,
            TO <= MAX_SCALE,
        ensures
            r == UFix64::<TO>::lift(self.convert_spec(TO as nat)),
    {
        let target_one = UFix64::<TO>::one();
        let source_one = UFix64::<EXP>::one();
        target_one.mul_div_floor(self, source_one)
    }

    /// The sum as a result, with the overflow as its error.
    pub open spec fn add_spec(self, v: Self) -> Result<Self, CoreError> {
        if self.bits + v.bits > u64::MAX {
            Err(CoreError::ArithmeticOverflow)
        } else {
            Ok(UFix64::<EXP> { bits: (self.bits + v.bits) as u64 })
        }
    }

    /// The difference as a result, with the underflow as its error.
    pub open spec fn sub_spec(self, v: Self) -> Result<Self, CoreError> {
        if self.bits < v.bits {
            Err(CoreError::ArithmeticUnderflow)
        } else {
            Ok(UFix64::<EXP> { bits: (self.bits - v.bits) as u64 })
        }
    }

    /// The sum, or `ArithmeticOverflow`.
    pub fn try_add(self, v: Self) -> (r: Result<Self, CoreError>)
        ensures
            r == self.add_spec(v),
    {
        match self.bits.checked_add(v.bits) {
            Some(bits) => Ok(UFix64 { bits }),
            None => Err(CoreError::ArithmeticOverflow),
        }
    }

    /// The difference, or `ArithmeticUnderflow`.
    pub fn try_sub(self, v: Self) -> (r: Result<Self, CoreError>)
        ensures
            r == self.sub_spec(v),
    {
        match self.bits.checked_sub(v.bits) {
            Some(bits) => Ok(UFix64 { bits }),
            None => Err(CoreError::ArithmeticUnderflow),
        }
    }

    /// The bits of a result, where there are any, as a quantity of this
    /// scale.
    pub open spec fn lift_result(bits: Result<u64, CoreError>) -> Result<Self, CoreError> {
        match bits {
            Ok(b) => Ok(UFix64::<EXP> { bits: b }),
            Err(e) => Err(e),
        }
    }

    /// Bits, where there are any, as a quantity of this scale.
    pub open spec fn lift(bits: Option<u64>) -> Option<Self> {
        match bits {
            Some(b) => Some(UFix64::<EXP> { bits: b }),
            None => None,
        }
    }
}

/// The unit of a sum of scales is the product of their units.
pub proof fn lemma_pow10_adds(a: nat, b: nat)
    ensures
        pow10(a + b) == pow10(a) * pow10(b),
    decreases b,
{
    reveal_with_fuel(pow10, 2);
    if b > 0 {
        lemma_pow10_adds(a, (b - 1) as nat);
        assert(pow10(a + b) == 10 * pow10((a + b - 1) as nat));
        assert(10 * (pow10(a) * pow10((b - 1) as nat)) == pow10(a) * (10 * pow10((b - 1) as nat)))
            by (nonlinear_arith);
    } else {
        assert(pow10(a) * 1 == pow10(a)) by (nonlinear_arith);
    }
}

/// A quantity taken to a finer scale keeps its value exactly, and comes back
/// unchanged.
pub proof fn lemma_convert_finer_and_back<const EXP: u8>(x: UFix64<EXP>, to: nat)
    requires
        EXP <= to,
        x.convert_spec(to) is Some,
    ensures
        x.convert_spec(to)->Some_0 == x.bits * pow10((to - EXP) as nat),
        mul_div_floor_spec(
            pow10(EXP as nat) as int,
            x.convert_spec(to)->Some_0 as int,
            pow10(to) as int,
        ) == Some(x.bits),
{
    let from = pow10(EXP as nat) as int;
    let step = pow10((to - EXP) as nat) as int;
    let fine = pow10(to) as int;
    let bits = x.bits as int;
    lemma_pow10_adds(EXP as nat, (to - EXP) as nat);
    lemma_pow10_monotonic(0, EXP as nat);
    lemma_pow10_monotonic(0, (to - EXP) as nat);
    lemma_pow10_monotonic(0, to);
    assert(fine == from * step);
    assert(fine * bits == (bits * step) * from) by (nonlinear_arith)
        requires
            fine == from * step,
    ;
    assert((fine * bits) / from == bits * step) by (nonlinear_arith)
        requires
            fine * bits == (bits * step) * from,
            0 < from,
    ;
    assert(from * (bits * step) == bits * fine) by (nonlinear_arith)
        requires
            fine == from * step,
    ;
    assert((from * (bits * step)) / fine == bits) by (nonlinear_arith)
        requires
            from * (bits * step) == bits * fine,
            0 < fine,
    ;
}

/// The units of the scales in use, and of the largest scale.
pub proof fn lemma_pow10_values()
    ensures
        pow10(0) == 1,
        pow10(2) == 100,
        pow10(3) == 1_000,
        pow10(4) == 10_000,
        pow10(6) == 1_000_000,
        pow10(8) == 100_000_000,
        pow10(9) == 1_000_000_000,
        pow10(18) == 1_000_000_000_000_000_000,
        pow10(19) == 10_000_000_000_000_000_000,
{
    reveal_with_fuel(pow10, 20);
}

/// A larger scale has a larger unit.
pub proof fn lemma_pow10_monotonic(a: nat, b: nat)
    requires
        a <= b,
    ensures
        0 < pow10(a) <= pow10(b),
    decreases b,
{
    reveal_with_fuel(pow10, 2);
    if b > a {
        lemma_pow10_monotonic(a, (b - 1) as nat);
    } else if a > 0 {
        lemma_pow10_monotonic((a - 1) as nat, (a - 1) as nat);
    }
}

} // verus!
