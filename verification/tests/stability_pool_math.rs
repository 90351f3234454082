use hylo_core::error::CoreError;
use hylo_core::fixed_point::UFix64;
use hylo_core::stability_pool_math::{
    amount_token_to_withdraw, lp_token_nav, lp_token_out, stability_pool_cap,
    stablecoin_withdrawal_fee,
};

const PAR: u64 = 1_000_000_000;
const LEVER_NAV: u64 = 5_010_000_000;

#[test]
fn pool_cap_adds_both_tokens_at_their_value() {
    // 1,000,000 stablecoin at 1.0 and 20,000 levercoin at 5.01.
    assert_eq!(
        stability_pool_cap(
            UFix64::new(PAR),
            UFix64::new(1_000_000_000_000),
            UFix64::new(LEVER_NAV),
            UFix64::new(20_000_000_000)
        ),
        Ok(UFix64::new(1_100_200_000_000))
    );
    assert_eq!(
        stability_pool_cap(
            UFix64::new(PAR),
            UFix64::new(1_111_111_111),
            UFix64::new(LEVER_NAV),
            UFix64::new(22_222_222)
        ),
        Ok(UFix64::new(1_222_444_443))
    );
}

#[test]
fn pool_cap_failures() {
    assert_eq!(
        stability_pool_cap(
            UFix64::new(u64::MAX),
            UFix64::new(u64::MAX),
            UFix64::new(PAR),
            UFix64::new(1)
        ),
        Err(CoreError::ArithmeticOverflow)
    );
    assert_eq!(
        stability_pool_cap(UFix64::new(PAR), UFix64::new(u64::MAX), UFix64::new(PAR), UFix64::new(1)),
        Err(CoreError::ArithmeticOverflow)
    );
}

#[test]
fn share_value_is_pool_value_over_supply() {
    assert_eq!(
        lp_token_nav(
            UFix64::new(PAR),
            UFix64::new(1_000_000_000_000),
            UFix64::new(LEVER_NAV),
            UFix64::new(20_000_000_000),
            UFix64::new(900_000_000_000)
        ),
        Ok(UFix64::new(1_222_444_444))
    );
}

#[test]
fn share_value_without_shares_is_division_by_zero() {
    assert_eq!(
        lp_token_nav(
            UFix64::new(PAR),
            UFix64::new(1_000_000_000_000),
            UFix64::new(LEVER_NAV),
            UFix64::new(20_000_000_000),
            UFix64::new(0)
        ),
        Err(CoreError::DivisionByZero)
    );
}

#[test]
fn shares_out_is_deposit_over_share_value() {
    assert_eq!(
        lp_token_out(UFix64::new(1_000_000_000), UFix64::new(1_222_444_444)),
        Ok(UFix64::new(818_033_085))
    );
    assert_eq!(
        lp_token_out(UFix64::new(1_000_000_000), UFix64::new(PAR)),
        Ok(UFix64::new(1_000_000_000))
    );
    assert_eq!(
        lp_token_out(UFix64::new(1_000_000_000), UFix64::new(0)),
        Err(CoreError::DivisionByZero)
    );
    assert_eq!(
        lp_token_out(UFix64::new(u64::MAX), UFix64::new(1)),
        Err(CoreError::ArithmeticOverflow)
    );
}

#[test]
fn withdrawal_is_pro_rata() {
    assert_eq!(
        amount_token_to_withdraw(
            UFix64::new(1_000_000_000),
            UFix64::new(900_000_000_000),
            UFix64::new(1_000_000_000_000)
        ),
        Ok(UFix64::new(1_111_111_111))
    );
    assert_eq!(
        amount_token_to_withdraw(
            UFix64::new(1_000_000_000),
            UFix64::new(900_000_000_000),
            UFix64::new(20_000_000_000)
        ),
        Ok(UFix64::new(22_222_222))
    );
    // All the shares withdraw the whole balance.
    assert_eq!(
        amount_token_to_withdraw(UFix64::new(3), UFix64::new(3), UFix64::new(10)),
        Ok(UFix64::new(10))
    );
    assert_eq!(
        amount_token_to_withdraw(UFix64::new(7), UFix64::new(3), UFix64::new(10)),
        Ok(UFix64::new(23))
    );
}

#[test]
fn withdrawal_failures() {
    assert_eq!(
        amount_token_to_withdraw(UFix64::new(1), UFix64::new(0), UFix64::new(10)),
        Err(CoreError::DivisionByZero)
    );
    assert_eq!(
        amount_token_to_withdraw(UFix64::new(u64::MAX), UFix64::new(1), UFix64::new(2)),
        Err(CoreError::ArithmeticOverflow)
    );
}

#[test]
fn withdrawal_fee_is_charged_on_both_tokens() {
    // Half a per cent of 1222.444443 USD is 6.112223 USD, all of it taken
    // from the stablecoin.
    let got = stablecoin_withdrawal_fee(
        UFix64::new(1_000_000_000_000),
        UFix64::new(1_111_111_111),
        UFix64::new(PAR),
        UFix64::new(22_222_222),
        UFix64::new(LEVER_NAV),
        UFix64::new(50),
    )
    .unwrap();
    assert_eq!(got.fees_extracted, UFix64::new(6_112_223));
    assert_eq!(got.amount_remaining, UFix64::new(1_104_998_888));
    assert_eq!(got.fees_extracted.bits + got.amount_remaining.bits, 1_111_111_111);
}

#[test]
fn withdrawal_fee_at_a_reduced_stablecoin_value() {
    // One per cent of 0.8 USD is 0.008 USD, which is 0.01 stablecoin.
    let got = stablecoin_withdrawal_fee(
        UFix64::new(1_000_000),
        UFix64::new(1_000_000),
        UFix64::new(800_000_000),
        UFix64::new(0),
        UFix64::new(0),
        UFix64::new(100),
    )
    .unwrap();
    assert_eq!(got.fees_extracted, UFix64::new(10_000));
    assert_eq!(got.amount_remaining, UFix64::new(990_000));
}

#[test]
fn withdrawal_fee_failures() {
    // The fee on the levercoin is more than the stablecoin withdrawn.
    assert_eq!(
        stablecoin_withdrawal_fee(
            UFix64::new(10),
            UFix64::new(10),
            UFix64::new(PAR),
            UFix64::new(1_000_000_000),
            UFix64::new(PAR),
            UFix64::new(10_000)
        ),
        Err(CoreError::ArithmeticUnderflow)
    );
    // A worthless stablecoin cannot carry a fee.
    assert_eq!(
        stablecoin_withdrawal_fee(
            UFix64::new(10),
            UFix64::new(10),
            UFix64::new(0),
            UFix64::new(10),
            UFix64::new(PAR),
            UFix64::new(50)
        ),
        Err(CoreError::DivisionByZero)
    );
}

#[test]
fn withdrawal_is_bounded_by_the_pool_balance() {
    // One unit more than the pool holds.
    assert_eq!(
        stablecoin_withdrawal_fee(
            UFix64::new(1_111_111_110),
            UFix64::new(1_111_111_111),
            UFix64::new(PAR),
            UFix64::new(22_222_222),
            UFix64::new(LEVER_NAV),
            UFix64::new(50)
        ),
        Err(CoreError::ArithmeticUnderflow)
    );
    // The whole balance can be withdrawn.
    let all = stablecoin_withdrawal_fee(
        UFix64::new(1_111_111_111),
        UFix64::new(1_111_111_111),
        UFix64::new(PAR),
        UFix64::new(22_222_222),
        UFix64::new(LEVER_NAV),
        UFix64::new(50),
    )
    .unwrap();
    assert_eq!(all.fees_extracted, UFix64::new(6_112_223));
    assert_eq!(all.amount_remaining, UFix64::new(1_104_998_888));
}
