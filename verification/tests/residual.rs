use ecosafety_core::bands::CorridorBands;
use ecosafety_core::fixed::ONE;
use ecosafety_core::mar_shard::compute_residual;
use ecosafety_core::residual::{aggregate, residual_of, AggregationMode, Residual, RiskCoord};

fn fx(x: f64) -> i64 {
    (x * 1e9).round() as i64
}

fn coord(id: &str, r: f64, w: f64) -> RiskCoord {
    RiskCoord {
        value: fx(r),
        sigma: 0,
        bands: CorridorBands::new(id, "", fx(0.0), fx(0.5), fx(1.0), fx(w), 0, true),
    }
}

#[test]
fn linear_residual_is_the_weighted_sum() {
    let coords = vec![coord("a", 0.5, 0.4), coord("b", 0.25, 0.4), coord("c", 1.0, 0.2)];
    let res = aggregate(coords.clone(), AggregationMode::Linear).unwrap();
    // 0.4 * 0.5 + 0.4 * 0.25 + 0.2 * 1.0
    assert_eq!(res.vt, fx(0.5));
    assert_eq!(res.coords, coords);
    assert!(res.is_consistent(AggregationMode::Linear));
}

#[test]
fn squared_residual_squares_each_risk() {
    let coords = vec![coord("a", 0.5, 0.4), coord("b", 0.25, 0.4), coord("c", 1.0, 0.2)];
    let res = aggregate(coords, AggregationMode::Squared).unwrap();
    // 0.4 * 0.25 + 0.4 * 0.0625 + 0.2 * 1.0
    assert_eq!(res.vt, fx(0.325));
    assert!(res.is_consistent(AggregationMode::Squared));
    assert!(!res.is_consistent(AggregationMode::Linear));
}

#[test]
fn weights_are_not_normalised() {
    let coords = vec![coord("a", 1.0, 3.0), coord("b", 1.0, 4.0)];
    assert_eq!(residual_of(&coords, AggregationMode::Linear), Some(fx(7.0)));
}

#[test]
fn empty_list_aggregates_to_zero() {
    let res = aggregate(Vec::new(), AggregationMode::Linear).unwrap();
    assert_eq!(res.vt, 0);
    assert!(res.coords.is_empty());
}

#[test]
fn aggregation_does_not_depend_on_the_order() {
    let a = coord("a", 0.3, 0.7);
    let b = coord("b", 0.9, 0.1);
    let c = coord("c", 0.123456789, 0.333333333);
    let orders = vec![
        vec![a.clone(), b.clone(), c.clone()],
        vec![a.clone(), c.clone(), b.clone()],
        vec![b.clone(), a.clone(), c.clone()],
        vec![b.clone(), c.clone(), a.clone()],
        vec![c.clone(), a.clone(), b.clone()],
        vec![c.clone(), b.clone(), a.clone()],
    ];
    let expected = residual_of(&orders[0], AggregationMode::Linear);
    let expected_squared = residual_of(&orders[0], AggregationMode::Squared);
    assert!(expected.is_some());
    for order in orders.iter() {
        assert_eq!(residual_of(order, AggregationMode::Linear), expected);
        assert_eq!(residual_of(order, AggregationMode::Squared), expected_squared);
    }
}

#[test]
fn order_of_the_coordinates_is_kept() {
    let coords = vec![coord("z", 0.1, 1.0), coord("a", 0.2, 1.0), coord("m", 0.3, 1.0)];
    let res = aggregate(coords, AggregationMode::Linear).unwrap();
    let ids: Vec<&str> = res.coords.iter().map(|c| c.bands.var_id.as_str()).collect();
    assert_eq!(ids, vec!["z", "a", "m"]);
}

#[test]
fn residual_is_rounded_down_once() {
    // 0.333333333 * 0.333333333 = 0.111111110888888889, so 0.111111110.
    let coords = vec![coord("a", 0.333333333, 0.333333333)];
    assert_eq!(residual_of(&coords, AggregationMode::Linear), Some(111_111_110));
    // Three such terms sum to 0.333333332666666667 before rounding.
    let three = vec![
        coord("a", 0.333333333, 0.333333333),
        coord("b", 0.333333333, 0.333333333),
        coord("c", 0.333333333, 0.333333333),
    ];
    assert_eq!(residual_of(&three, AggregationMode::Linear), Some(333_333_332));
}

#[test]
fn malformed_coordinates_are_rejected() {
    let too_large = vec![coord("a", 0.4, 1.0), coord("b", 1.2, 1.0)];
    assert_eq!(aggregate(too_large, AggregationMode::Linear), None);
    let negative = vec![coord("a", -0.1, 1.0)];
    assert_eq!(aggregate(negative, AggregationMode::Linear), None);
    let mut uncertain = coord("a", 0.5, 1.0);
    uncertain.sigma = -1;
    assert_eq!(aggregate(vec![uncertain], AggregationMode::Linear), None);
    let negative_weight = vec![coord("a", 0.5, -1.0)];
    assert_eq!(aggregate(negative_weight, AggregationMode::Linear), None);
    let mut flat = coord("a", 0.5, 1.0);
    flat.bands.hard = flat.bands.safe;
    assert_eq!(aggregate(vec![flat], AggregationMode::Linear), None);
}

#[test]
fn residual_that_cannot_be_represented_is_rejected() {
    let mut big = coord("a", 1.0, 1.0);
    big.bands.weight_w = i64::MAX;
    assert_eq!(residual_of(&vec![big.clone()], AggregationMode::Linear), Some(i64::MAX));
    assert_eq!(residual_of(&vec![big.clone()], AggregationMode::Squared), Some(i64::MAX));
    let two = vec![big.clone(), big.clone()];
    assert_eq!(residual_of(&two, AggregationMode::Linear), None);
    assert_eq!(residual_of(&two, AggregationMode::Squared), None);
    let mut straw = coord("b", 1.0, 1.0);
    straw.bands.weight_w = 1;
    assert_eq!(residual_of(&vec![big, straw], AggregationMode::Linear), None);
}

#[test]
fn recompute_restores_consistency() {
    let mut res = Residual { vt: 12345, coords: vec![coord("a", 0.5, 0.5)] };
    assert!(!res.is_consistent(AggregationMode::Linear));
    assert!(res.recompute(AggregationMode::Linear));
    assert_eq!(res.vt, fx(0.25));
    assert!(res.is_consistent(AggregationMode::Linear));
    // A second recomputation changes nothing.
    assert!(res.recompute(AggregationMode::Linear));
    assert_eq!(res.vt, fx(0.25));
}

#[test]
fn recompute_leaves_a_malformed_residual_alone() {
    let mut res = Residual { vt: 777, coords: vec![coord("a", 1.5, 0.5)] };
    assert!(!res.recompute(AggregationMode::Linear));
    assert_eq!(res.vt, 777);
    assert_eq!(res.coords.len(), 1);
}

#[test]
fn clone_keeps_value_and_coordinates() {
    let res = Residual { vt: fx(0.4), coords: vec![coord("a", 0.1, 1.0), coord("b", 0.3, 1.0)] };
    let copy = res.clone();
    assert_eq!(copy, res);
}

#[test]
fn squared_residual_of_a_slice() {
    let risks = [coord("a", 0.5, 1.0), coord("b", 0.5, 2.0)];
    let res = compute_residual(&risks).unwrap();
    assert_eq!(res.vt, fx(0.75));
    assert_eq!(res.coords.len(), 2);
    assert_eq!(compute_residual(&[coord("a", 2.0, 1.0)]), None);
}

#[test]
fn full_risk_with_unit_weight_is_one() {
    assert_eq!(residual_of(&vec![coord("a", 1.0, 1.0)], AggregationMode::Linear), Some(ONE));
    assert_eq!(residual_of(&vec![coord("a", 1.0, 1.0)], AggregationMode::Squared), Some(ONE));
}
