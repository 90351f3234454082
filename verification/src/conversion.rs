//! Conversions between collateral-asset units and token units, and between
//! the two tokens.
//!
//! Each conversion picks the bound of the price range that is safe for the
//! protocol: the party that converts never gets the better price.

use crate::error::CoreError;
use crate::fixed_point::{floor_mul_div, floor_mul_div_spec, UFix64, UNIT_6, UNIT_8, UNIT_9};
use crate::pyth::PriceRange;
use vstd::prelude::*;

verus! {

/// An oracle price range of SOL in USD together with the price of one
/// collateral asset in SOL.
#[derive(Clone, Copy, Debug, PartialEq, Eq)]
pub struct Conversion {
    pub usd_sol_price: PriceRange<8>,
    pub lst_sol_price: UFix64<9>,
}

/// A collateral amount valued in USD: the amount in SOL at `lst_sol_price`,
/// then in USD at `sol_usd_price`, each step rounded down.
pub open spec fn lst_value_spec(
    amount_lst: UFix64<9>,
    lst_sol_price: UFix64<9>,
    sol_usd_price: UFix64<8>,
) -> Result<u64, CoreError> {
    match floor_mul_div_spec(amount_lst.bits as int, lst_sol_price.bits as int, UNIT_9 as int) {
        Err(e) => Err(e),
        Ok(sol) => floor_mul_div_spec(sol as int, sol_usd_price.bits as int, UNIT_8 as int),
    }
}

/// A value in USD as a collateral amount: the value in SOL at
/// `sol_usd_price`, then in the collateral asset at `lst_sol_price`, each
/// step rounded down.
pub open spec fn value_lst_spec(value: u64, lst_sol_price: UFix64<9>, sol_usd_price: UFix64<8>) -> Result<
    u64,
    CoreError,
> {
    match floor_mul_div_spec(value as int, UNIT_8 as int, sol_usd_price.bits as int) {
        Err(e) => Err(e),
        Ok(sol) => floor_mul_div_spec(sol as int, UNIT_9 as int, lst_sol_price.bits as int),
    }
}

impl Conversion {
    pub fn new(usd_sol_price: PriceRange<8>, lst_sol_price: UFix64<9>) -> (r: Self)
        ensures
            r.usd_sol_price == usd_sol_price,
            r.lst_sol_price == lst_sol_price,
    {
        Conversion { usd_sol_price, lst_sol_price }
    }

    /// The tokens that a collateral amount buys: its value at the lower
    /// price bound, over the token's net asset value.
    pub open spec fn lst_to_token_spec(&self, amount_lst: UFix64<9>, token_nav: UFix64<9>) -> Result<
        UFix64<6>,
        CoreError,
    > {
        match lst_value_spec(amount_lst, self.lst_sol_price, self.usd_sol_price.lower) {
            Err(e) => Err(e),
            Ok(value) => UFix64::<6>::lift_result(
                floor_mul_div_spec(value as int, UNIT_6 as int, token_nav.bits as int),
            ),
        }
    }

    /// The collateral that a token amount buys: its value at the token's
    /// net asset value, priced at the upper bound.
    pub open spec fn token_to_lst_spec(&self, amount_token: UFix64<6>, token_nav: UFix64<9>) -> Result<
        UFix64<9>,
        CoreError,
    > {
        match floor_mul_div_spec(amount_token.bits as int, token_nav.bits as int, UNIT_6 as int) {
            Err(e) => Err(e),
            Ok(value) => UFix64::<9>::lift_result(
                value_lst_spec(value, self.lst_sol_price, self.usd_sol_price.upper),
            ),
        }
    }

    /// Converts an amount of the collateral asset into an amount of a token
    /// with the given net asset value.
    pub fn lst_to_token(&self, amount_lst: UFix64<9>, token_nav: UFix64<9>) -> (r: Result<
        UFix64<6>,
        CoreError,
    >)
        ensures
            r == self.lst_to_token_spec(amount_lst, token_nav),
    {
        let sol = floor_mul_div(amount_lst.bits, self.lst_sol_price.bits, UNIT_9)?;
        let value = floor_mul_div(sol, self.usd_sol_price.lower.bits, UNIT_8)?;
        let tokens = floor_mul_div(value, UNIT_6, token_nav.bits)?;
        Ok(UFix64::new(tokens))
    }

    /// Converts an amount of a token with the given net asset value into an
    /// amount of the collateral asset.
    pub fn token_to_lst(&self, amount_token: UFix64<6>, token_nav: UFix64<9>) -> (r: Result<
        UFix64<9>,
        CoreError,
    >)
        ensures
            r == self.token_to_lst_spec(amount_token, token_nav),
    {
        let value = floor_mul_div(amount_token.bits, token_nav.bits, UNIT_6)?;
        let sol = floor_mul_div(value, UNIT_8, self.usd_sol_price.upper.bits)?;
        let lst = floor_mul_div(sol, UNIT_9, self.lst_sol_price.bits)?;
        Ok(UFix64::new(lst))
    }
}

impl Conversion {
    /// No step on the way from a collateral amount to a token amount
    /// rounds: each division leaves no remainder.
    pub open spec fn converts_exactly(&self, amount_lst: UFix64<9>, token_nav: UFix64<9>) -> bool {
        &&& token_nav.bits > 0
        &&& (amount_lst.bits * self.lst_sol_price.bits) % (UNIT_9 as int) == 0
        &&& ((amount_lst.bits * self.lst_sol_price.bits / (UNIT_9 as int))
            * self.usd_sol_price.lower.bits) % (UNIT_8 as int) == 0
        &&& ((amount_lst.bits * self.lst_sol_price.bits / (UNIT_9 as int))
            * self.usd_sol_price.lower.bits / (UNIT_8 as int) * UNIT_6) % (token_nav.bits as int)
            == 0
    }
}

/// Where a quotient rounded down is taken of a number that is at most
/// `bound` times the divisor, the quotient is at most `bound`.
pub proof fn lemma_floor_within(x: int, d: int, bound: int)
    requires
        0 < d,
        x <= bound * d,
    ensures
        x / d <= bound,
{
    assert(x / d <= bound) by (nonlinear_arith)
        requires
            0 < d,
            x <= bound * d,
    ;
}

/// A quotient rounded down, times the divisor, does not pass the dividend.
pub proof fn lemma_floor_below(x: int, d: int)
    requires
        0 <= x,
        0 < d,
    ensures
        0 <= x / d,
        (x / d) * d <= x,
        x % d == 0 ==> (x / d) * d == x,
{
    assert(0 <= x / d && (x / d) * d <= x && (x % d == 0 ==> (x / d) * d == x))
        by (nonlinear_arith)
        requires
            0 <= x,
            0 < d,
    ;
}

/// A collateral amount turned into tokens and back, at one net asset value,
/// never comes back larger: every step rounds down, and the way in takes
/// the lower price where the way back takes the upper.
pub proof fn lemma_round_trip_never_gains(
    conversion: Conversion,
    amount_lst: UFix64<9>,
    token_nav: UFix64<9>,
)
    requires
        conversion.usd_sol_price.wf(),
        conversion.lst_to_token_spec(amount_lst, token_nav) is Ok,
        conversion.token_to_lst_spec(
            conversion.lst_to_token_spec(amount_lst, token_nav)->Ok_0,
            token_nav,
        ) is Ok,
    ensures
        conversion.token_to_lst_spec(
            conversion.lst_to_token_spec(amount_lst, token_nav)->Ok_0,
            token_nav,
        )->Ok_0.bits <= amount_lst.bits,
{
    let a = amount_lst.bits as int;
    let l = conversion.lst_sol_price.bits as int;
    let pl = conversion.usd_sol_price.lower.bits as int;
    let pu = conversion.usd_sol_price.upper.bits as int;
    let n = token_nav.bits as int;
    let s = a * l / (UNIT_9 as int);
    let u = s * pl / (UNIT_8 as int);
    let t = u * UNIT_6 / n;
    let u2 = t * n / (UNIT_6 as int);
    let s2 = u2 * UNIT_8 / pu;
    let a2 = s2 * UNIT_9 / l;
    assert(0 <= a * l && 0 <= s * pl && 0 <= u * UNIT_6 && 0 <= t * n) by (nonlinear_arith)
        requires
            0 <= a,
            0 <= l,
            0 <= pl,
            0 <= n,
            s == a * l / (UNIT_9 as int),
            u == s * pl / (UNIT_8 as int),
            t == u * UNIT_6 / n,
            0 < n,
            UNIT_9 == 1_000_000_000,
            UNIT_8 == 100_000_000,
            UNIT_6 == 1_000_000,
    ;
    lemma_floor_below(a * l, UNIT_9 as int);
    lemma_floor_below(s * pl, UNIT_8 as int);
    lemma_floor_below(u * UNIT_6, n);
    // The value found on the way back is at most the value of the way in.
    assert(t * n <= u * UNIT_6);
    lemma_floor_within(t * n, UNIT_6 as int, u);
    assert(u2 <= u);
    // So is the amount in SOL.
    assert(u2 * UNIT_8 <= s * pu) by (nonlinear_arith)
        requires
            u2 <= u,
            u * UNIT_8 <= s * pl,
            pl <= pu,
            0 <= s,
            UNIT_8 == 100_000_000,
    ;
    lemma_floor_within(u2 * UNIT_8, pu, s);
    assert(s2 <= s);
    // And so is the collateral.
    assert(s2 * UNIT_9 <= a * l) by (nonlinear_arith)
        requires
            s2 <= s,
            s * UNIT_9 <= a * l,
            UNIT_9 == 1_000_000_000,
    ;
    lemma_floor_within(s2 * UNIT_9, l, a);
}

/// Where the price range is a single price and no step of the way in
/// rounds, a collateral amount turned into tokens and back, at one net
/// asset value, comes back unchanged.
pub proof fn lemma_round_trip_exact(
    conversion: Conversion,
    amount_lst: UFix64<9>,
    token_nav: UFix64<9>,
)
    requires
        conversion.usd_sol_price.lower == conversion.usd_sol_price.upper,
        conversion.usd_sol_price.lower.bits > 0,
        conversion.lst_sol_price.bits > 0,
        conversion.converts_exactly(amount_lst, token_nav),
        conversion.lst_to_token_spec(amount_lst, token_nav) is Ok,
    ensures
        conversion.token_to_lst_spec(
            conversion.lst_to_token_spec(amount_lst, token_nav)->Ok_0,
            token_nav,
        ) == Ok::<UFix64<9>, CoreError>(amount_lst),
{
    let a = amount_lst.bits as int;
    let l = conversion.lst_sol_price.bits as int;
    let p = conversion.usd_sol_price.lower.bits as int;
    let n = token_nav.bits as int;
    let s = a * l / (UNIT_9 as int);
    let u = s * p / (UNIT_8 as int);
    let t = u * UNIT_6 / n;
    assert(0 <= a * l && 0 <= s * p && 0 <= u * UNIT_6) by (nonlinear_arith)
        requires
            0 <= a,
            0 <= l,
            0 <= p,
            s == a * l / (UNIT_9 as int),
            u == s * p / (UNIT_8 as int),
            UNIT_9 == 1_000_000_000,
            UNIT_8 == 100_000_000,
            UNIT_6 == 1_000_000,
    ;
    lemma_floor_below(a * l, UNIT_9 as int);
    lemma_floor_below(s * p, UNIT_8 as int);
    lemma_floor_below(u * UNIT_6, n);
    assert(t * n == u * UNIT_6);
    lemma_exact_quotient(u, UNIT_6 as int, t * n);
    assert(u * UNIT_8 == s * p);
    lemma_exact_quotient(s, p, u * UNIT_8);
    assert(s * UNIT_9 == a * l);
    lemma_exact_quotient(a, l, s * UNIT_9);
}

/// What a round trip at a single price can lose, scaled by
/// `lst_sol_price * price * UNIT_6` so that no division stands in it: one
/// unit of collateral, two units of SOL, and the worth of one token unit and
/// two units of value, each for a division that rounded down.
pub open spec fn round_trip_loss_bound(conversion: Conversion, token_nav: UFix64<9>) -> int {
    conversion.lst_sol_price.bits * conversion.usd_sol_price.lower.bits * UNIT_6 + 2 * UNIT_9
        * conversion.usd_sol_price.lower.bits * UNIT_6 + (token_nav.bits + 2 * UNIT_6) * UNIT_8
        * UNIT_9
}

/// Where the price range is a single price, a collateral amount turned into
/// tokens and back, at one net asset value, loses less than the bound: the
/// loss is what six divisions round away, which for a token of six digits
/// can be more than one unit of a collateral of nine.
pub proof fn lemma_round_trip_loss_bounded(
    conversion: Conversion,
    amount_lst: UFix64<9>,
    token_nav: UFix64<9>,
)
    requires
        conversion.usd_sol_price.lower == conversion.usd_sol_price.upper,
        conversion.lst_to_token_spec(amount_lst, token_nav) is Ok,
        conversion.token_to_lst_spec(
            conversion.lst_to_token_spec(amount_lst, token_nav)->Ok_0,
            token_nav,
        ) is Ok,
    ensures
        (amount_lst.bits - conversion.token_to_lst_spec(
            conversion.lst_to_token_spec(amount_lst, token_nav)->Ok_0,
            token_nav,
        )->Ok_0.bits) * (conversion.lst_sol_price.bits * conversion.usd_sol_price.lower.bits)
            * UNIT_6 < round_trip_loss_bound(conversion, token_nav),
{
    let a = amount_lst.bits as int;
    let l = conversion.lst_sol_price.bits as int;
    let p = conversion.usd_sol_price.lower.bits as int;
    let n = token_nav.bits as int;
    let k9 = UNIT_9 as int;
    let k8 = UNIT_8 as int;
    let k6 = UNIT_6 as int;
    let s = a * l / k9;
    let u = s * p / k8;
    let t = u * k6 / n;
    let u2 = t * n / k6;
    let s2 = u2 * k8 / p;
    let a2 = s2 * k9 / l;
    let al = a * l;
    let sp = s * p;
    let tn = t * n;
    let s2p = s2 * p;
    let lp = l * p;
    assert(0 <= al && 0 <= sp && 0 <= u * k6 && 0 <= tn && 0 <= u2 * k8 && 0 <= s2 * k9)
        by (nonlinear_arith)
        requires
            0 <= a,
            0 < l,
            0 < p,
            0 < n,
            al == a * l,
            s == al / k9,
            sp == s * p,
            u == sp / k8,
            t == u * k6 / n,
            tn == t * n,
            u2 == tn / k6,
            s2 == u2 * k8 / p,
            k9 == 1_000_000_000,
            k8 == 100_000_000,
            k6 == 1_000_000,
    ;
    // What each division rounds away is less than its divisor.
    lemma_floor_remainder(al, k9);
    lemma_floor_remainder(sp, k8);
    lemma_floor_remainder(u * k6, n);
    lemma_floor_remainder(tn, k6);
    lemma_floor_remainder(u2 * k8, p);
    lemma_floor_remainder(s2 * k9, l);
    let alp = al * p;
    let a2lp = a2 * lp;
    assert(sp < 100_000_000 * u + 100_000_000);
    assert(1_000_000 * u < tn + n);
    assert(tn < 1_000_000 * u2 + 1_000_000);
    assert(100_000_000 * u2 < s2p + p);
    // The first and the last bound are scaled by a price.
    assert(alp < 1_000_000_000 * sp + 1_000_000_000 * p) by (nonlinear_arith)
        requires
            al < 1_000_000_000 * s + 1_000_000_000,
            0 < p,
            sp == s * p,
            alp == al * p,
    ;
    assert(1_000_000_000 * s2p < a2lp + lp) by (nonlinear_arith)
        requires
            s2 * 1_000_000_000 < l * a2 + l,
            0 < p,
            s2p == s2 * p,
            lp == l * p,
            a2lp == a2 * lp,
    ;
    assert(1_000_000 * alp < 1_000_000 * a2lp + 1_000_000 * lp + 2_000_000_000_000_000 * p
        + 100_000_000_000_000_000 * n + 200_000_000_000_000_000_000_000);
    assert((a - a2) * lp == alp - a2lp) by (nonlinear_arith)
        requires
            al == a * l,
            lp == l * p,
            alp == al * p,
            a2lp == a2 * lp,
    ;
    assert(conversion.lst_to_token_spec(amount_lst, token_nav)->Ok_0.bits == t);
    assert(conversion.token_to_lst_spec(
        conversion.lst_to_token_spec(amount_lst, token_nav)->Ok_0,
        token_nav,
    )->Ok_0.bits == a2);
    assert(round_trip_loss_bound(conversion, token_nav) == 1_000_000 * lp
        + 2_000_000_000_000_000 * p + 100_000_000_000_000_000 * n
        + 200_000_000_000_000_000_000_000) by (nonlinear_arith)
        requires
            round_trip_loss_bound(conversion, token_nav) == l * p * UNIT_6 + 2 * UNIT_9 * p
                * UNIT_6 + (n + 2 * UNIT_6) * UNIT_8 * UNIT_9,
            lp == l * p,
            UNIT_9 == 1_000_000_000,
            UNIT_8 == 100_000_000,
            UNIT_6 == 1_000_000,
    ;
    assert((a - a2) * (l * p) * UNIT_6 == 1_000_000 * (alp - a2lp)) by (nonlinear_arith)
        requires
            (a - a2) * lp == alp - a2lp,
            lp == l * p,
            UNIT_6 == 1_000_000,
    ;
}

/// A dividend is less than the next multiple of the divisor above its
/// quotient rounded down.
pub proof fn lemma_floor_remainder(x: int, d: int)
    requires
        0 <= x,
        0 < d,
    ensures
        (x / d) * d <= x < (x / d) * d + d,
{
    assert((x / d) * d <= x && x < (x / d) * d + d) by (nonlinear_arith)
        requires
            0 <= x,
            0 < d,
    ;
}

/// A product divided by one of its factors is the other.
pub proof fn lemma_exact_quotient(q: int, d: int, x: int)
    requires
        0 < d,
        x == q * d,
    ensures
        x / d == q,
{
    assert(x / d == q) by (nonlinear_arith)
        requires
            0 < d,
            x == q * d,
    ;
}

/// The net asset values of the two tokens, for swaps between them. The
/// levercoin has a range: its lower bound pays a redeemer, its upper bound
/// charges a minter.
#[derive(Clone, Copy, Debug, PartialEq, Eq)]
pub struct SwapConversion {
    pub stablecoin_nav: UFix64<9>,
    pub levercoin_nav: PriceRange<9>,
}

impl SwapConversion {
    pub fn new(stablecoin_nav: UFix64<9>, levercoin_nav: PriceRange<9>) -> (r: Self)
        ensures
            r.stablecoin_nav == stablecoin_nav,
            r.levercoin_nav == levercoin_nav,
    {
        SwapConversion { stablecoin_nav, levercoin_nav }
    }

    /// Stablecoin into levercoin, the levercoin at its upper bound.
    pub open spec fn stable_to_lever_spec(&self, amount_stable: UFix64<6>) -> Result<
        UFix64<6>,
        CoreError,
    > {
        UFix64::<6>::lift_result(
            floor_mul_div_spec(
                amount_stable.bits as int,
                self.stablecoin_nav.bits as int,
                self.levercoin_nav.upper.bits as int,
            ),
        )
    }

    /// Levercoin into stablecoin, the levercoin at its lower bound.
    pub open spec fn lever_to_stable_spec(&self, amount_lever: UFix64<6>) -> Result<
        UFix64<6>,
        CoreError,
    > {
        UFix64::<6>::lift_result(
            floor_mul_div_spec(
                amount_lever.bits as int,
                self.levercoin_nav.lower.bits as int,
                self.stablecoin_nav.bits as int,
            ),
        )
    }

    /// The levercoin that an amount of stablecoin buys.
    pub fn stable_to_lever(&self, amount_stable: UFix64<6>) -> (r: Result<UFix64<6>, CoreError>)
        ensures
            r == self.stable_to_lever_spec(amount_stable),
    {
        match floor_mul_div(
            amount_stable.bits,
            self.stablecoin_nav.bits,
            self.levercoin_nav.upper.bits,
        ) {
            Ok(bits) => Ok(UFix64::new(bits)),
            Err(e) => Err(e),
        }
    }

    /// The stablecoin that an amount of levercoin buys.
    pub fn lever_to_stable(&self, amount_lever: UFix64<6>) -> (r: Result<UFix64<6>, CoreError>)
        ensures
            r == self.lever_to_stable_spec(amount_lever),
    {
        match floor_mul_div(
            amount_lever.bits,
            self.levercoin_nav.lower.bits,
            self.stablecoin_nav.bits,
        ) {
            Ok(bits) => Ok(UFix64::new(bits)),
            Err(e) => Err(e),
        }
    }
}

} // verus!
