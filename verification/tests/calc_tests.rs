use bullseye_core::calc::calculate_ratio;
use bullseye_core::calc::calculate_ratio_as_pct;
use bullseye_core::calc::calculate_ratio_as_pct_option;
use bullseye_core::calc::calculate_ratio_option;
use bullseye_core::calc::calculate_yoy_growth_option;
use bullseye_core::calc::ratio_pct_scaled;
use bullseye_core::calc::ratio_scaled;

#[test]
fn ratio_absent_when_operand_absent() {
    assert_eq!(calculate_ratio_option(None, Some(10)), None);
    assert_eq!(calculate_ratio_option(Some(10), None), None);
    assert_eq!(calculate_ratio_option(None, None), None);
    assert_eq!(calculate_ratio(None, 10), None);
    assert_eq!(calculate_ratio_as_pct(None, 10), None);
    assert_eq!(calculate_ratio_as_pct_option(Some(10), None), None);
}

#[test]
fn ratio_absent_on_zero_denominator() {
    assert_eq!(calculate_ratio_option(Some(10), Some(0)), None);
    assert_eq!(calculate_ratio(Some(10), 0), None);
    assert_eq!(calculate_ratio_as_pct(Some(10), 0), None);
    assert_eq!(ratio_scaled(123, 0), None);
    assert_eq!(ratio_pct_scaled(123, 0), None);
}

#[test]
fn growth_absent_when_operand_absent_or_zero() {
    assert_eq!(calculate_yoy_growth_option(None, Some(10)), None);
    assert_eq!(calculate_yoy_growth_option(Some(10), None), None);
    assert_eq!(calculate_yoy_growth_option(Some(10), Some(0)), None);
}

#[test]
fn ratio_as_percentage_rounds_to_two_decimals() {
    // 333333 / 1000000 = 0.333333 -> 33.33%, held as 3333.
    assert_eq!(calculate_ratio_as_pct_option(Some(333333), Some(1000000)), Some(3333));
    // 2/3 = 0.666667 -> 66.67%, rounded up.
    assert_eq!(ratio_pct_scaled(2, 3), Some(6667));
    // Exact value stays exact: 1/4 -> 25.00%.
    assert_eq!(ratio_pct_scaled(1, 4), Some(2500));
}

#[test]
fn rounding_is_half_away_from_zero() {
    // 1/20000 as a percentage is exactly 0.005% -> 0.01 (one hundredth), away from zero.
    assert_eq!(ratio_pct_scaled(1, 20000), Some(1));
    assert_eq!(ratio_pct_scaled(-1, 20000), Some(-1));
    // Plain ratio: 1/8 = 0.125 -> 0.13.
    assert_eq!(ratio_scaled(1, 8), Some(13));
    assert_eq!(ratio_scaled(-1, 8), Some(-13));
}

#[test]
fn growth_is_relative_to_prior_magnitude() {
    // From 10 to 20: +100.00%.
    assert_eq!(calculate_yoy_growth_option(Some(20), Some(10)), Some(10000));
    // From 20 to 10: -50.00%.
    assert_eq!(calculate_yoy_growth_option(Some(10), Some(20)), Some(-5000));
    // From -10 to -5: growth relative to |prev|: +50.00%.
    assert_eq!(calculate_yoy_growth_option(Some(-5), Some(-10)), Some(5000));
    // From 3 to 4: +33.33%.
    assert_eq!(calculate_yoy_growth_option(Some(4), Some(3)), Some(3333));
}

#[test]
fn ratio_absent_when_result_unrepresentable() {
    // 10000 * i64::MAX / 1 does not fit in i64.
    assert_eq!(ratio_pct_scaled(i64::MAX, 1), None);
    // The same magnitude with a large denominator fits.
    assert_eq!(ratio_pct_scaled(i64::MAX, i64::MAX), Some(10000));
}

#[test]
fn growth_handles_extreme_magnitudes() {
    assert_eq!(calculate_yoy_growth_option(Some(i64::MAX), Some(i64::MAX)), Some(0));
    assert_eq!(calculate_yoy_growth_option(Some(i64::MAX), Some(1)), None);
    assert_eq!(calculate_yoy_growth_option(Some(0), Some(i64::MIN)), Some(10000));
}
