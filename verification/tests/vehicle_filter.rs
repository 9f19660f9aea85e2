use ecosafety_core::bands::{CorridorBands, Polarity};
use ecosafety_core::governor::PilotGateDecision;
use ecosafety_core::shard::{KerFields, RiskCoordEntry};
use ecosafety_core::vehicle_filter::{
    compute_residual, govern_vehicle_filter_chain, has_all_corridors, pilot_gate_approve,
    pilot_gate_derate, pilot_gate_stop, required_vars, safestep_shard, VehicleFilterShard,
    VehicleFilterShardHeader, REQUIRED_VARS,
};

fn fx(x: f64) -> i64 {
    (x * 1e9).round() as i64
}

fn dummy_bands(varid: &str) -> CorridorBands {
    CorridorBands {
        var_id: varid.to_string(),
        units: String::new(),
        safe: fx(0.0),
        gold: fx(0.5),
        hard: fx(1.0),
        safe_rx: fx(0.0),
        weight_w: fx(1.0),
        lyap_channel: 0,
        polarity: Polarity::LowerIsSafer,
        mandatory: true,
    }
}

fn entry(varid: &str, rx: f64) -> RiskCoordEntry {
    RiskCoordEntry {
        varid: varid.to_string(),
        measured: fx(rx),
        bands: dummy_bands(varid),
        rx: fx(rx),
    }
}

// Two equal-weight coordinates carry the residual, so that it comes to
// `vt_target`; the other required corridors rest at zero risk.
fn dummy_shard_with_vt(vt_target: f64) -> VehicleFilterShard {
    let rx = vt_target / 2.0;
    VehicleFilterShard {
        header: VehicleFilterShardHeader {
            didsignature_valid: true,
            timestamp: 0,
            ..Default::default()
        },
        corridors: vec![
            entry("pm", rx),
            entry("backpressure", rx),
            entry("nox", 0.0),
            entry("hc", 0.0),
            entry("co", 0.0),
            entry("substratetemp", 0.0),
        ],
        ker: KerFields {
            ecoimpact_value: fx(0.95),
            risk_of_harm: fx(0.10),
            ..Default::default()
        },
    }
}

#[test]
fn test_approve_derate_stop_thresholds() {
    let mut s_approve = dummy_shard_with_vt(0.4);
    s_approve.header.timestamp = 1;

    let mut s_derate = dummy_shard_with_vt(0.7);
    s_derate.header.timestamp = 2;

    let mut s_stop = dummy_shard_with_vt(1.1);
    s_stop.header.timestamp = 3;

    assert_eq!(
        pilot_gate_approve(&s_approve),
        Some(PilotGateDecision::Approve)
    );
    assert_eq!(
        pilot_gate_derate(&s_derate),
        Some(PilotGateDecision::Derate)
    );
    assert_eq!(pilot_gate_stop(&s_stop), Some(PilotGateDecision::Stop));
}

#[test]
fn test_govern_vehicle_filter_priority() {
    let mut s1 = dummy_shard_with_vt(0.4);
    s1.header.timestamp = 1;
    let mut s2 = dummy_shard_with_vt(0.7);
    s2.header.timestamp = 2;
    let mut s3 = dummy_shard_with_vt(1.1);
    s3.header.timestamp = 3;

    let chain = vec![s1, s2, s3];
    let decision = govern_vehicle_filter_chain(&chain);
    assert_eq!(decision, Some(PilotGateDecision::Stop));
}

#[test]
fn residual_is_the_weighted_sum_of_the_risks() {
    let shard = dummy_shard_with_vt(0.4);
    let res = compute_residual(&shard).unwrap();
    assert_eq!(res.vt, fx(0.4));
    assert_eq!(res.coords.len(), 6);
    assert_eq!(res.coords[0].value, fx(0.2));
    assert_eq!(res.coords[2].value, 0);
}

#[test]
fn shard_without_corridors_has_no_residual() {
    let mut shard = dummy_shard_with_vt(0.4);
    shard.corridors.clear();
    assert_eq!(compute_residual(&shard), None);
    assert_eq!(pilot_gate_stop(&shard), None);
    assert_eq!(pilot_gate_derate(&shard), None);
    assert_eq!(pilot_gate_approve(&shard), None);
}

#[test]
fn missing_corridor_blocks_approval() {
    let mut shard = dummy_shard_with_vt(0.4);
    shard.corridors.pop();
    assert!(!has_all_corridors(&shard));
    assert_eq!(pilot_gate_approve(&shard), None);
    assert_eq!(govern_vehicle_filter_chain(&vec![shard]), None);
}

#[test]
fn invalid_signature_blocks_approval() {
    let mut shard = dummy_shard_with_vt(0.4);
    assert!(has_all_corridors(&shard));
    shard.header.didsignature_valid = false;
    assert!(!has_all_corridors(&shard));
    assert_eq!(pilot_gate_approve(&shard), None);
}

#[test]
fn required_vars_are_the_six_filter_corridors() {
    assert_eq!(
        REQUIRED_VARS,
        ["pm", "nox", "hc", "co", "backpressure", "substratetemp"]
    );
    assert_eq!(required_vars(), REQUIRED_VARS.to_vec());
}

#[test]
fn gates_switch_exactly_at_their_thresholds() {
    assert_eq!(pilot_gate_derate(&dummy_shard_with_vt(0.5)), Some(PilotGateDecision::Derate));
    assert_eq!(pilot_gate_approve(&dummy_shard_with_vt(0.5)), None);
    assert_eq!(pilot_gate_stop(&dummy_shard_with_vt(1.0)), Some(PilotGateDecision::Stop));
    assert_eq!(pilot_gate_derate(&dummy_shard_with_vt(1.0)), None);
    assert_eq!(pilot_gate_stop(&dummy_shard_with_vt(0.999)), None);
}

#[test]
fn approval_needs_eco_impact_and_low_risk() {
    let mut low_eco = dummy_shard_with_vt(0.4);
    low_eco.ker.ecoimpact_value = fx(0.89);
    assert_eq!(pilot_gate_approve(&low_eco), None);

    let mut risky = dummy_shard_with_vt(0.4);
    risky.ker.risk_of_harm = fx(0.16);
    assert_eq!(pilot_gate_approve(&risky), None);

    let mut edge = dummy_shard_with_vt(0.4);
    edge.ker.ecoimpact_value = fx(0.9);
    edge.ker.risk_of_harm = fx(0.15);
    assert_eq!(pilot_gate_approve(&edge), Some(PilotGateDecision::Approve));
}

#[test]
fn safestep_needs_time_to_move_forward() {
    let mut a = dummy_shard_with_vt(0.4);
    a.header.timestamp = 5;
    let mut b = dummy_shard_with_vt(0.4);
    b.header.timestamp = 5;
    assert!(!safestep_shard(&a, &b));
    b.header.timestamp = 6;
    assert!(safestep_shard(&a, &b));
    assert!(!safestep_shard(&b, &a));
}

#[test]
fn safestep_lets_the_residual_float_inside_the_safe_interior() {
    let mut a = dummy_shard_with_vt(0.0);
    a.header.timestamp = 1;
    let mut b = dummy_shard_with_vt(0.0);
    b.header.timestamp = 2;
    // Raise the weights of the next shard: its risks stay at zero, inside
    // the interior, so the step holds whatever the weights are.
    for e in b.corridors.iter_mut() {
        e.bands.weight_w = fx(3.0);
    }
    assert!(safestep_shard(&a, &b));

    let mut c = dummy_shard_with_vt(0.2);
    c.header.timestamp = 3;
    assert!(!safestep_shard(&b, &c));
    let mut d = dummy_shard_with_vt(0.2);
    d.header.timestamp = 4;
    assert!(safestep_shard(&c, &d));
}

#[test]
fn steady_chain_is_approved() {
    let mut s1 = dummy_shard_with_vt(0.4);
    s1.header.timestamp = 1;
    let mut s2 = dummy_shard_with_vt(0.4);
    s2.header.timestamp = 2;
    let mut s3 = dummy_shard_with_vt(0.3);
    s3.header.timestamp = 3;
    assert_eq!(
        govern_vehicle_filter_chain(&vec![s1, s2, s3]),
        Some(PilotGateDecision::Approve)
    );
}

#[test]
fn empty_chain_gets_no_decision() {
    assert_eq!(govern_vehicle_filter_chain(&Vec::new()), None);
}

#[test]
fn unsigned_shard_in_a_chain_stops_it() {
    let mut s1 = dummy_shard_with_vt(0.4);
    s1.header.timestamp = 1;
    s1.header.didsignature_valid = false;
    let mut s2 = dummy_shard_with_vt(0.3);
    s2.header.timestamp = 2;
    assert_eq!(
        govern_vehicle_filter_chain(&vec![s1, s2]),
        Some(PilotGateDecision::Stop)
    );
}

#[test]
fn defective_band_leaves_a_shard_without_residual() {
    let mut shard = dummy_shard_with_vt(0.4);
    shard.corridors[0].bands.hard = shard.corridors[0].bands.safe;
    assert_eq!(compute_residual(&shard), None);
    let mut next = dummy_shard_with_vt(0.4);
    next.header.timestamp = 1;
    assert_eq!(
        govern_vehicle_filter_chain(&vec![shard, next]),
        Some(PilotGateDecision::Stop)
    );
}
