use hylo_core::error::CoreError;
use hylo_core::fixed_point::UFix64;
use hylo_core::pyth::{query_pyth_price, OracleConfig, PriceRange, PriceUpdate};
use hylo_core::solana_clock::SolanaClock;

const NOW: i64 = 1_700_000_000;

fn clock() -> SolanaClock {
    SolanaClock::new(700, NOW)
}

fn config() -> OracleConfig<8> {
    // Updates of the last minute, confidence within one per cent.
    OracleConfig::new(60, UFix64::new(1_000_000))
}

#[test]
fn range_is_price_less_and_plus_confidence() {
    let update = PriceUpdate::new(2_000_500_000, 500_000, -8, NOW - 10);
    let range = query_pyth_price(&clock(), &update, config()).unwrap();
    assert_eq!(range.lower, UFix64::new(2_000_000_000));
    assert_eq!(range.upper, UFix64::new(2_001_000_000));
    assert_eq!(range, PriceRange::new(UFix64::new(2_000_000_000), UFix64::new(2_001_000_000)));
}

#[test]
fn zero_confidence_gives_a_single_price() {
    let update = PriceUpdate::new(2_000_000_000, 0, -8, NOW);
    let range = query_pyth_price(&clock(), &update, config()).unwrap();
    assert_eq!(range.lower, range.upper);
    assert_eq!(range.lower, UFix64::new(2_000_000_000));
}

#[test]
fn an_update_as_old_as_the_window_passes() {
    let update = PriceUpdate::new(2_000_500_000, 500_000, -8, NOW - 60);
    assert!(query_pyth_price(&clock(), &update, config()).is_ok());
}

#[test]
fn an_update_older_than_the_window_is_stale() {
    let update = PriceUpdate::new(2_000_500_000, 500_000, -8, NOW - 61);
    assert_eq!(query_pyth_price(&clock(), &update, config()), Err(CoreError::StalePrice));
}

#[test]
fn staleness_comes_before_every_other_check() {
    // Too old, and a negative price, a foreign exponent and a wild
    // confidence besides.
    let update = PriceUpdate::new(-5, u64::MAX, 3, i64::MIN);
    assert_eq!(query_pyth_price(&clock(), &update, config()), Err(CoreError::StalePrice));
    let ancient = PriceUpdate::new(2_000_500_000, 500_000, -8, 0);
    let late = SolanaClock::new(700, i64::MAX);
    assert_eq!(query_pyth_price(&late, &ancient, config()), Err(CoreError::StalePrice));
}

#[test]
fn an_update_from_the_future_is_not_stale() {
    let update = PriceUpdate::new(2_000_500_000, 500_000, -8, NOW + 1_000);
    assert!(query_pyth_price(&clock(), &update, config()).is_ok());
}

#[test]
fn a_price_must_be_positive() {
    let zero = PriceUpdate::new(0, 0, -8, NOW);
    assert_eq!(query_pyth_price(&clock(), &zero, config()), Err(CoreError::InvalidPrice));
    let negative = PriceUpdate::new(-2_000_500_000, 500_000, -8, NOW);
    assert_eq!(query_pyth_price(&clock(), &negative, config()), Err(CoreError::InvalidPrice));
}

#[test]
fn the_exponent_must_be_minus_eight() {
    let update = PriceUpdate::new(2_000_500_000, 500_000, -9, NOW);
    assert_eq!(query_pyth_price(&clock(), &update, config()), Err(CoreError::InvalidPrice));
    let positive = PriceUpdate::new(2_000_500_000, 500_000, 8, NOW);
    assert_eq!(query_pyth_price(&clock(), &positive, config()), Err(CoreError::InvalidPrice));
}

#[test]
fn confidence_at_the_tolerance_passes_and_above_it_fails() {
    // One per cent of 20.00000000 is 0.20000000.
    let at = PriceUpdate::new(2_000_000_000, 20_000_000, -8, NOW);
    let range = query_pyth_price(&clock(), &at, config()).unwrap();
    assert_eq!(range.lower, UFix64::new(1_980_000_000));
    assert_eq!(range.upper, UFix64::new(2_020_000_000));
    let over = PriceUpdate::new(2_000_000_000, 20_000_001, -8, NOW);
    assert_eq!(query_pyth_price(&clock(), &over, config()), Err(CoreError::ConfidenceExceeded));
}

#[test]
fn confidence_wider_than_the_price_fails_under_any_tolerance() {
    let loose: OracleConfig<8> = OracleConfig::new(60, UFix64::new(u64::MAX));
    let update = PriceUpdate::new(100, 101, -8, NOW);
    assert_eq!(query_pyth_price(&clock(), &update, loose), Err(CoreError::ConfidenceExceeded));
    let wide = PriceUpdate::new(100, 100, -8, NOW);
    let range = query_pyth_price(&clock(), &wide, loose).unwrap();
    assert_eq!(range.lower, UFix64::new(0));
    assert_eq!(range.upper, UFix64::new(200));
}

#[test]
fn the_largest_price_does_not_overflow() {
    let loose: OracleConfig<8> = OracleConfig::new(60, UFix64::new(100_000_000));
    let update = PriceUpdate::new(i64::MAX, i64::MAX as u64, -8, NOW);
    let range = query_pyth_price(&clock(), &update, loose).unwrap();
    assert_eq!(range.lower, UFix64::new(0));
    assert_eq!(range.upper, UFix64::new(u64::MAX - 1));
}
