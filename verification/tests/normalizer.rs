use ecosafety_core::bands::{validate_corridors, BandError, CorridorBands, Polarity};
use ecosafety_core::fixed::{
    clamp01, floor_div, integer_text, natural_text, unit_product, CENT, HALF, MILLI, ONE,
};
use ecosafety_core::normalize::{falling, normalize_metric, rising};
use ecosafety_core::residual::{to_r_linear, RiskCoord};

fn fx(x: f64) -> i64 {
    (x * 1e9).round() as i64
}

fn band(safe: f64, hard: f64) -> CorridorBands {
    CorridorBands::new("x", "unit", fx(safe), fx((safe + hard) / 2.0), fx(hard), fx(1.0), 0, true)
}

#[test]
fn halfway_between_safe_and_hard_is_half() {
    let b = band(0.0, 1.0);
    assert_eq!(normalize_metric(fx(0.5), &b), Ok(fx(0.5)));
    assert_eq!(normalize_metric(fx(0.5), &b), Ok(HALF));
}

#[test]
fn thresholds_map_to_zero_and_one() {
    let b = band(2.0, 10.0);
    assert_eq!(normalize_metric(fx(2.0), &b), Ok(0));
    assert_eq!(normalize_metric(fx(10.0), &b), Ok(ONE));
    let inverted = band(10.0, 2.0);
    assert_eq!(normalize_metric(fx(10.0), &inverted), Ok(0));
    assert_eq!(normalize_metric(fx(2.0), &inverted), Ok(ONE));
}

#[test]
fn values_beyond_the_thresholds_are_clamped() {
    let b = band(2.0, 10.0);
    assert_eq!(normalize_metric(fx(-5.0), &b), Ok(0));
    assert_eq!(normalize_metric(fx(50.0), &b), Ok(ONE));
    assert_eq!(normalize_metric(i64::MIN, &b), Ok(0));
    assert_eq!(normalize_metric(i64::MAX, &b), Ok(ONE));
}

#[test]
fn lower_is_safer_interpolates_upwards() {
    let b = band(2.0, 10.0);
    assert_eq!(b.polarity, Polarity::LowerIsSafer);
    assert_eq!(normalize_metric(fx(4.0), &b), Ok(fx(0.25)));
    assert_eq!(normalize_metric(fx(8.0), &b), Ok(fx(0.75)));
}

#[test]
fn higher_is_safer_interpolates_downwards() {
    let b = band(10.0, 2.0);
    assert_eq!(b.polarity, Polarity::HigherIsSafer);
    assert_eq!(normalize_metric(fx(8.0), &b), Ok(fx(0.25)));
    assert_eq!(normalize_metric(fx(4.0), &b), Ok(fx(0.75)));
    assert_eq!(normalize_metric(fx(11.0), &b), Ok(0));
    assert_eq!(normalize_metric(fx(1.0), &b), Ok(ONE));
}

#[test]
fn interpolation_rounds_down() {
    // One third of the way: 0.333333333 and not a billionth more.
    let b = band(0.0, 3.0);
    assert_eq!(normalize_metric(fx(1.0), &b), Ok(333_333_333));
    assert_eq!(normalize_metric(fx(2.0), &b), Ok(666_666_666));
}

#[test]
fn normalisation_is_monotonic_in_the_raw_value() {
    let up = band(1.0, 4.0);
    let down = band(4.0, 1.0);
    let mut last_up = 0;
    let mut last_down = ONE;
    let mut raw = fx(0.0);
    while raw <= fx(5.0) {
        let r_up = normalize_metric(raw, &up).unwrap();
        let r_down = normalize_metric(raw, &down).unwrap();
        assert!((0..=ONE).contains(&r_up));
        assert!((0..=ONE).contains(&r_down));
        assert!(r_up >= last_up);
        assert!(r_down <= last_down);
        last_up = r_up;
        last_down = r_down;
        raw += fx(0.125);
    }
    assert_eq!(last_up, ONE);
    assert_eq!(last_down, 0);
}

#[test]
fn equal_thresholds_are_rejected() {
    let b = band(1.0, 1.0);
    assert_eq!(normalize_metric(fx(0.5), &b), Err(BandError::EqualThresholds));
    assert_eq!(b.validate(), Err(BandError::EqualThresholds));
    assert!(!b.is_well_formed());
}

#[test]
fn thresholds_against_the_polarity_are_rejected() {
    let mut b = band(0.0, 1.0);
    b.polarity = Polarity::HigherIsSafer;
    assert_eq!(normalize_metric(fx(0.5), &b), Err(BandError::PolarityMismatch));
    let mut c = band(1.0, 0.0);
    c.polarity = Polarity::LowerIsSafer;
    assert_eq!(c.validate(), Err(BandError::PolarityMismatch));
}

#[test]
fn negative_weight_is_rejected() {
    let mut b = band(0.0, 1.0);
    b.weight_w = -1;
    assert_eq!(normalize_metric(fx(0.5), &b), Err(BandError::NegativeWeight));
    b.weight_w = 0;
    assert_eq!(normalize_metric(fx(0.5), &b), Ok(HALF));
}

#[test]
fn band_errors_have_messages() {
    assert_eq!(BandError::EqualThresholds.message(), "safe and hard thresholds coincide");
    assert_eq!(BandError::PolarityMismatch.message(), "thresholds contradict the polarity");
    assert_eq!(BandError::NegativeWeight.message(), "weight is negative");
}

#[test]
fn new_band_defaults_the_safe_interior_to_the_safe_threshold() {
    let b = CorridorBands::new("HLR", "m/d", fx(0.3), fx(0.6), fx(0.95), fx(0.3), 2, true);
    assert_eq!(b.var_id, "HLR");
    assert_eq!(b.units, "m/d");
    assert_eq!(b.safe_rx, fx(0.3));
    assert_eq!(b.lyap_channel, 2);
    assert!(b.mandatory);
    let c = b.clone().with_safe_interior(0);
    assert_eq!(c.safe_rx, 0);
    assert_eq!(c.safe, b.safe);
    assert_eq!(c.var_id, b.var_id);
}

#[test]
fn corridor_sets_are_checked_at_load_time() {
    let good = vec![band(0.0, 1.0), band(5.0, 1.0)];
    assert_eq!(validate_corridors(&good), Ok(()));
    let mut broken = band(0.0, 1.0);
    broken.weight_w = -5;
    let bad = vec![band(0.0, 1.0), broken, band(1.0, 1.0)];
    assert_eq!(validate_corridors(&bad), Err(BandError::NegativeWeight));
    assert_eq!(validate_corridors(&Vec::new()), Ok(()));
}

#[test]
fn ramps_are_total() {
    // With the thresholds the wrong way round a ramp degenerates to a step.
    assert_eq!(rising(fx(0.5), fx(1.0), fx(0.0)), 0);
    assert_eq!(rising(fx(1.5), fx(1.0), fx(0.0)), ONE);
    assert_eq!(falling(fx(0.5), fx(0.0), fx(1.0)), 0);
    assert_eq!(falling(fx(-0.5), fx(0.0), fx(1.0)), ONE);
    assert_eq!(rising(fx(1.0), fx(1.0), fx(1.0)), 0);
}

#[test]
fn linear_coordinate_carries_its_band() {
    let b = band(0.2, 0.8);
    let c: RiskCoord = to_r_linear(fx(0.5), &b);
    assert_eq!(c.value, fx(0.5));
    assert_eq!(c.sigma, 0);
    assert_eq!(c.bands, b);
    assert_eq!(to_r_linear(fx(0.1), &b).value, 0);
    assert_eq!(to_r_linear(fx(0.9), &b).value, ONE);
}

#[test]
fn clamp_limits_to_the_unit_interval() {
    assert_eq!(clamp01(-1), 0);
    assert_eq!(clamp01(0), 0);
    assert_eq!(clamp01(fx(0.3)), fx(0.3));
    assert_eq!(clamp01(ONE), ONE);
    assert_eq!(clamp01(ONE + 1), ONE);
}

#[test]
fn floor_division_rounds_towards_minus_infinity() {
    assert_eq!(floor_div(7, 2), 3);
    assert_eq!(floor_div(-7, 2), -4);
    assert_eq!(floor_div(-8, 2), -4);
    assert_eq!(floor_div(-1, 10), -1);
    assert_eq!(floor_div(0, 10), 0);
}

#[test]
fn unit_product_multiplies_and_limits() {
    assert_eq!(unit_product(fx(0.5), fx(0.5)), fx(0.25));
    assert_eq!(unit_product(fx(2.0), fx(2.0)), ONE);
    assert_eq!(unit_product(fx(-0.5), fx(0.5)), 0);
    assert_eq!(unit_product(1, 1), 0);
}

#[test]
fn integers_are_rendered_in_decimal() {
    assert_eq!(natural_text(0), "0");
    assert_eq!(natural_text(7), "7");
    assert_eq!(natural_text(10), "10");
    assert_eq!(natural_text(1_234_567_890), "1234567890");
    assert_eq!(natural_text(u64::MAX), "18446744073709551615");
    assert_eq!(integer_text(0), "0");
    assert_eq!(integer_text(-1), "-1");
    assert_eq!(integer_text(42), "42");
    assert_eq!(integer_text(-9_000_000_100), "-9000000100");
    assert_eq!(integer_text(i64::MAX), "9223372036854775807");
    assert_eq!(integer_text(i64::MIN), "-9223372036854775808");
}

#[test]
fn scale_constants() {
    assert_eq!(ONE, 1_000_000_000);
    assert_eq!(HALF * 2, ONE);
    assert_eq!(CENT * 100, ONE);
    assert_eq!(MILLI * 1000, ONE);
    assert_eq!(fx(0.01), CENT);
    assert_eq!(fx(0.001), MILLI);
}
