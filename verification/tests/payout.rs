use vayoo_contracts::errors::ErrorCode;
use vayoo_contracts::payout::{clamped_payout, position_gains, price_band, scaled_payout, Payout};

const START: u64 = 100_000_000;
const AMPLITUDE: u64 = 10;
const SCALE: u64 = 1_000_000;

#[test]
fn band_lies_half_the_scaled_amplitude_around_the_start() {
    let band = price_band(START, AMPLITUDE, SCALE).unwrap();
    assert_eq!(band.lower_bound, 95_000_000);
    assert_eq!(band.upper_bound, 105_000_000);
}

#[test]
fn payout_inside_the_band() {
    let p = clamped_payout(START, 102_000_000, AMPLITUDE, SCALE).unwrap();
    assert_eq!(p, Payout { long_per_unit: 7, short_per_unit: 3 });
    assert_eq!(p.long_per_unit + p.short_per_unit, AMPLITUDE);
}

#[test]
fn payout_at_and_beyond_the_upper_bound() {
    for end in [105_000_000u64, 105_000_001, u64::MAX] {
        let p = clamped_payout(START, end, AMPLITUDE, SCALE).unwrap();
        assert_eq!(p, Payout { long_per_unit: AMPLITUDE, short_per_unit: 0 });
    }
}

#[test]
fn payout_at_and_beyond_the_lower_bound() {
    for end in [95_000_000u64, 94_999_999, 0] {
        let p = clamped_payout(START, end, AMPLITUDE, SCALE).unwrap();
        assert_eq!(p, Payout { long_per_unit: 0, short_per_unit: AMPLITUDE });
    }
}

#[test]
fn payout_loses_one_to_rounding_off_the_grid() {
    let p = clamped_payout(START, 102_500_000, AMPLITUDE, SCALE).unwrap();
    assert_eq!(p, Payout { long_per_unit: 7, short_per_unit: 2 });
}

#[test]
fn payout_with_odd_scaled_amplitude_never_reaches_the_amplitude() {
    let p = clamped_payout(10, 1_000, 3, 1).unwrap();
    assert_eq!(p, Payout { long_per_unit: 2, short_per_unit: 0 });
}

#[test]
fn payout_overflows() {
    assert_eq!(clamped_payout(START, START, u64::MAX, 2), Err(ErrorCode::Overflow));
    assert_eq!(clamped_payout(4_000_000, START, AMPLITUDE, SCALE), Err(ErrorCode::Overflow));
    assert_eq!(clamped_payout(u64::MAX, START, AMPLITUDE, SCALE), Err(ErrorCode::Overflow));
    assert_eq!(clamped_payout(START, START, AMPLITUDE, 0), Err(ErrorCode::Overflow));
    assert_eq!(price_band(4_000_000, AMPLITUDE, SCALE), Err(ErrorCode::Overflow));
}

#[test]
fn scaled_payout_splits_the_band() {
    let p = scaled_payout(START, 102_500_000, AMPLITUDE, SCALE).unwrap();
    assert_eq!(p.long, 7_500_000);
    assert_eq!(p.short, 2_500_000);
}

#[test]
fn gains_multiply_first_and_divide_once() {
    assert_eq!(position_gains(10, 7_000_000, SCALE), Ok(70));
    assert_eq!(position_gains(3, 7_500_000, SCALE), Ok(22));
    assert_eq!(position_gains(0, 7_500_000, SCALE), Ok(0));
    assert_eq!(position_gains(u64::MAX, 2, 1), Err(ErrorCode::Overflow));
    assert_eq!(position_gains(1, 1, 0), Err(ErrorCode::Overflow));
}
