use hylo_core::error::CoreError;
use hylo_core::fixed_point::UFix64;
use hylo_core::stability_mode::{StabilityController, StabilityMode};

fn controller() -> StabilityController {
    StabilityController::new(UFix64::new(1_500_000_000), UFix64::new(1_200_000_000)).unwrap()
}

#[test]
fn thresholds_must_descend() {
    let high: UFix64<9> = UFix64::new(1_500_000_000);
    let low: UFix64<9> = UFix64::new(1_200_000_000);
    let made = StabilityController::new(high, low).unwrap();
    assert_eq!(made.stability_threshold_1, high);
    assert_eq!(made.stability_threshold_2, low);
    assert_eq!(
        StabilityController::new(low, high),
        Err(CoreError::InvalidStabilityThresholds)
    );
    assert_eq!(
        StabilityController::new(high, high),
        Err(CoreError::InvalidStabilityThresholds)
    );
}

#[test]
fn mode_of_each_band() {
    let c = controller();
    assert_eq!(c.stability_mode(UFix64::new(2_000_000_000)), StabilityMode::Stable);
    assert_eq!(c.stability_mode(UFix64::new(u64::MAX)), StabilityMode::Stable);
    assert_eq!(c.stability_mode(UFix64::new(1_333_333_333)), StabilityMode::Decay);
    assert_eq!(c.stability_mode(UFix64::new(1_000_000_000)), StabilityMode::Depeg);
    assert_eq!(c.stability_mode(UFix64::new(0)), StabilityMode::Depeg);
}

#[test]
fn a_ratio_on_a_threshold_is_on_the_healthy_side() {
    let c = controller();
    assert_eq!(c.stability_mode(UFix64::new(1_500_000_000)), StabilityMode::Stable);
    assert_eq!(c.stability_mode(UFix64::new(1_499_999_999)), StabilityMode::Decay);
    assert_eq!(c.stability_mode(UFix64::new(1_200_000_000)), StabilityMode::Decay);
    assert_eq!(c.stability_mode(UFix64::new(1_199_999_999)), StabilityMode::Depeg);
}

#[test]
fn mode_never_improves_as_the_ratio_falls() {
    let c = controller();
    let ratios: [u64; 9] = [
        3_000_000_000,
        1_500_000_001,
        1_500_000_000,
        1_499_999_999,
        1_300_000_000,
        1_200_000_000,
        1_199_999_999,
        500_000_000,
        0,
    ];
    let mut last: u8 = 0;
    for ratio in ratios {
        let ordinal: u8 = c.stability_mode(UFix64::new(ratio)).ordinal();
        assert!(ordinal >= last);
        last = ordinal;
    }
    assert_eq!(last, 2);
}

#[test]
fn ordinals_follow_stress() {
    assert_eq!(StabilityMode::Stable.ordinal(), 0);
    assert_eq!(StabilityMode::Decay.ordinal(), 1);
    assert_eq!(StabilityMode::Depeg.ordinal(), 2);
    assert!(StabilityMode::Stable < StabilityMode::Decay);
    assert!(StabilityMode::Decay < StabilityMode::Depeg);
}

#[test]
fn min_threshold_is_the_second() {
    assert_eq!(controller().min_stability_threshold(), UFix64::new(1_200_000_000));
}

#[test]
fn next_threshold_of_each_mode() {
    let c = controller();
    assert_eq!(
        c.next_stability_threshold(StabilityMode::Stable),
        Some(UFix64::new(1_500_000_000))
    );
    assert_eq!(
        c.next_stability_threshold(StabilityMode::Decay),
        Some(UFix64::new(1_200_000_000))
    );
    assert_eq!(c.next_stability_threshold(StabilityMode::Depeg), None);
}
