use ecosafety_core::bands::CorridorBands;
use ecosafety_core::decision::CorridorDecision;
use ecosafety_core::residual::{Residual, RiskCoord};
use ecosafety_core::response_shard::{
    evaluate_draft, no_corridor_no_build, safestep, DraftAssessment, ResponseShard, Triad,
    TriadInputs,
};
use ecosafety_core::sat_cell::{
    eco_benefit_kg_removed, evaluate_sat_scenario, evidence_line, normalize, sat_risk_coords,
    SatEvalError,
};

fn fx(x: f64) -> i64 {
    (x * 1e9).round() as i64
}

fn coord(var_id: &str, value: f64, safe: f64, gold: f64, hard: f64, weight: f64) -> RiskCoord {
    RiskCoord {
        value: fx(value),
        sigma: 0,
        bands: CorridorBands::new(var_id, "", fx(safe), fx(gold), fx(hard), fx(weight), 0, true),
    }
}

fn shard(k: f64, e: f64, r: f64, vt: f64) -> ResponseShard {
    ResponseShard {
        user_did: "bostrom18...".into(),
        topic: "phoenix-mar-sat".into(),
        triad: Triad { knowledge: fx(k), eco_impact: fx(e), risk_of_harm: fx(r) },
        residual: Residual { vt: fx(vt), coords: vec![] },
        evidence: vec![],
        corridor_tags: vec!["mar".into()],
    }
}

#[test]
fn no_corridor_no_build_works() {
    let coords = vec![coord("r_sat", 0.3, 0.3, 0.7, 1.0, 1.0)];
    assert!(no_corridor_no_build(&["r_sat"], &coords));
    assert!(!no_corridor_no_build(&["r_sat", "r_pfas"], &coords));
}

#[test]
fn no_required_variable_needs_no_corridor() {
    assert!(no_corridor_no_build(&[], &[]));
    assert!(!no_corridor_no_build(&["r_sat"], &[]));
    let coords = vec![coord("a", 0.1, 0.0, 0.5, 1.0, 1.0), coord("b", 0.1, 0.0, 0.5, 1.0, 1.0)];
    assert!(no_corridor_no_build(&["b", "a", "b"], &coords));
}

#[test]
fn safestep_derates_on_v_increase() {
    let prev = Residual { vt: fx(0.2), coords: vec![] };
    let next = Residual { vt: fx(0.25), coords: vec![] };
    assert_eq!(safestep(&prev, &next), CorridorDecision::Derate);
}

#[test]
fn safestep_stops_on_a_coordinate_out_of_range() {
    let prev = Residual { vt: fx(0.2), coords: vec![] };
    let over = Residual { vt: fx(0.1), coords: vec![coord("a", 1.2, 0.0, 0.5, 1.0, 1.0)] };
    let under = Residual { vt: fx(0.1), coords: vec![coord("a", -0.2, 0.0, 0.5, 1.0, 1.0)] };
    let fine = Residual { vt: fx(0.1), coords: vec![coord("a", 0.2, 0.0, 0.5, 1.0, 1.0)] };
    assert_eq!(safestep(&prev, &over), CorridorDecision::Stop);
    assert_eq!(safestep(&prev, &under), CorridorDecision::Stop);
    assert_eq!(safestep(&prev, &fine), CorridorDecision::Okay);
}

#[test]
fn tightening_logic_works() {
    let prev = ResponseShard {
        user_did: "bostrom18...".into(),
        topic: "phoenix-mar-sat".into(),
        triad: Triad { knowledge: fx(0.90), eco_impact: fx(0.88), risk_of_harm: fx(0.15) },
        residual: Residual { vt: fx(0.25), coords: vec![] },
        evidence: vec![],
        corridor_tags: vec!["mar".into()],
    };
    let next = ResponseShard {
        user_did: "bostrom18...".into(),
        topic: "phoenix-mar-sat".into(),
        triad: Triad { knowledge: fx(0.93), eco_impact: fx(0.90), risk_of_harm: fx(0.13) },
        residual: Residual { vt: fx(0.22), coords: vec![] },
        evidence: vec![],
        corridor_tags: vec!["mar".into()],
    };
    assert!(next.improves_over(&prev));
}

#[test]
fn each_score_can_block_the_tightening() {
    let prev = shard(0.9, 0.9, 0.1, 0.2);
    assert!(shard(0.9, 0.9, 0.1, 0.2).improves_over(&prev));
    assert!(!shard(0.89, 0.9, 0.1, 0.2).improves_over(&prev));
    assert!(!shard(0.9, 0.89, 0.1, 0.2).improves_over(&prev));
    assert!(!shard(0.9, 0.9, 0.11, 0.2).improves_over(&prev));
    assert!(!shard(0.9, 0.9, 0.1, 0.21).improves_over(&prev));
}

#[test]
fn residual_from_coordinates() {
    let coords = vec![coord("a", 0.5, 0.0, 0.5, 1.0, 0.4), coord("b", 1.0, 0.0, 0.5, 1.0, 0.2)];
    let res = Residual::from_coords(coords.clone()).unwrap();
    assert_eq!(res.vt, fx(0.4));
    assert_eq!(res.coords, coords);
    assert_eq!(Residual::from_coords(vec![coord("a", 1.5, 0.0, 0.5, 1.0, 0.4)]), None);
}

#[test]
fn draft_becomes_a_shard() {
    let draft = DraftAssessment {
        user_did: "did:x".into(),
        topic: "t".into(),
        base_triads: TriadInputs { k: fx(0.9), e: fx(0.8), r: fx(0.1) },
        base_coords: vec![coord("a", 0.5, 0.0, 0.5, 1.0, 0.5)],
        evidence: vec!["e1".into(), "e2".into()],
        corridor_tags: vec!["mar".into()],
    };
    let shard = evaluate_draft(draft).unwrap();
    assert_eq!(shard.user_did, "did:x");
    assert_eq!(shard.topic, "t");
    assert_eq!(
        shard.triad,
        Triad { knowledge: fx(0.9), eco_impact: fx(0.8), risk_of_harm: fx(0.1) }
    );
    assert_eq!(shard.residual.vt, fx(0.25));
    assert_eq!(shard.evidence, vec!["e1", "e2"]);
    assert_eq!(shard.corridor_tags, vec!["mar"]);
}

#[test]
fn draft_with_malformed_coordinates_is_rejected() {
    let draft = DraftAssessment {
        user_did: "did:x".into(),
        topic: "t".into(),
        base_triads: TriadInputs { k: 0, e: 0, r: 0 },
        base_coords: vec![coord("a", -0.5, 0.0, 0.5, 1.0, 0.5)],
        evidence: vec![],
        corridor_tags: vec![],
    };
    assert_eq!(evaluate_draft(draft), None);
}

#[test]
fn eco_benefit_positive() {
    let kg = eco_benefit_kg_removed(fx(10.0), fx(5.0), fx(1000.0));
    assert!(kg > 0);
}

#[test]
fn eco_benefit_is_mass_per_day() {
    // 5 mg/L of 1000 m3/d are 5 g/m3 of 1000 m3/d in the unit the cell
    // reports in: 5 * 1e-6 * 1000.
    assert_eq!(eco_benefit_kg_removed(fx(10.0), fx(5.0), fx(1000.0)), fx(0.005));
    assert_eq!(eco_benefit_kg_removed(fx(5.0), fx(10.0), fx(1000.0)), 0);
    assert_eq!(eco_benefit_kg_removed(fx(5.0), fx(5.0), fx(1000.0)), 0);
    assert_eq!(eco_benefit_kg_removed(fx(10.0), fx(5.0), 0), 0);
    assert_eq!(eco_benefit_kg_removed(fx(10.0), fx(5.0), fx(-1000.0)), fx(-0.005));
    assert_eq!(eco_benefit_kg_removed(i64::MAX, i64::MIN, i64::MAX), i64::MAX);
    assert_eq!(eco_benefit_kg_removed(i64::MAX, i64::MIN, i64::MIN), i64::MIN);
}

#[test]
fn sat_risk_coords_range() {
    let coords = sat_risk_coords(fx(0.1), fx(8.0), fx(22.0));
    for c in coords {
        assert!(c.value >= 0 && c.value <= fx(1.0));
    }
}

#[test]
fn sat_risk_coords_values() {
    let coords = sat_risk_coords(fx(0.1), fx(8.0), fx(22.5));
    assert_eq!(coords.len(), 3);
    // (0.1 - 0.05) / 0.2, (8 - 5) / 15, (22.5 - 15) / 15
    assert_eq!(coords[0].value, fx(0.25));
    assert_eq!(coords[1].value, fx(0.2));
    assert_eq!(coords[2].value, fx(0.5));
    let ids: Vec<&str> = coords.iter().map(|c| c.bands.var_id.as_str()).collect();
    assert_eq!(ids, vec!["r_sat", "r_pfas", "r_temp"]);
    let weights: Vec<i64> = coords.iter().map(|c| c.bands.weight_w).collect();
    assert_eq!(weights, vec![fx(0.4), fx(0.4), fx(0.2)]);
    for c in coords.iter() {
        assert_eq!((c.bands.safe, c.bands.gold, c.bands.hard), (0, fx(0.7), fx(1.0)));
    }
}

#[test]
fn sat_normalisation_ignores_the_gold_threshold() {
    assert_eq!(normalize(fx(10.0), fx(5.0), fx(10.0), fx(20.0)), fx(1.0 / 3.0) - 0);
    assert_eq!(normalize(fx(10.0), fx(5.0), fx(19.0), fx(20.0)), 333_333_333);
    assert_eq!(normalize(fx(4.0), fx(5.0), fx(10.0), fx(20.0)), 0);
    assert_eq!(normalize(fx(21.0), fx(5.0), fx(10.0), fx(20.0)), fx(1.0));
}

#[test]
fn evidence_lines_count_billionths() {
    assert_eq!(evidence_line("flow_m3_d", fx(1000.0)), "flow_m3_d=1000000000000e-9");
    assert_eq!(evidence_line("x", -5), "x=-5e-9");
    assert_eq!(evidence_line("", 0), "=0e-9");
}

#[test]
fn scenario_without_previous_shard_does_not_improve() {
    let (shard, improves) =
        evaluate_sat_scenario("did:x", fx(10.0), fx(5.0), fx(1000.0), fx(0.1), fx(8.0), fx(22.5), None)
            .unwrap();
    assert!(!improves);
    assert_eq!(shard.user_did, "did:x");
    assert_eq!(shard.topic, "phoenix-mar-sat");
    assert_eq!(shard.triad.knowledge, fx(0.93));
    // 0.005 kg of 1000 kg.
    assert_eq!(shard.triad.eco_impact, fx(0.000005));
    // 0.4 * 0.25 + 0.4 * 0.2 + 0.2 * 0.5
    assert_eq!(shard.residual.vt, fx(0.28));
    assert_eq!(shard.triad.risk_of_harm, fx(0.28));
    assert_eq!(
        shard.evidence,
        vec![
            "nitrate_in_mg_l=10000000000e-9",
            "nitrate_out_mg_l=5000000000e-9",
            "flow_m3_d=1000000000000e-9"
        ]
    );
    assert_eq!(shard.corridor_tags, vec!["mar", "sat", "phoenix"]);
}

#[test]
fn scenario_risk_is_capped() {
    let (shard, _) =
        evaluate_sat_scenario("did:x", 0, 0, 0, fx(9.0), fx(99.0), fx(99.0), None).unwrap();
    assert_eq!(shard.residual.vt, fx(1.0));
    assert_eq!(shard.triad.risk_of_harm, fx(0.3));
    assert_eq!(shard.triad.eco_impact, 0);
}

#[test]
fn scenario_eco_impact_saturates_at_a_thousand_kilograms() {
    let (shard, _) = evaluate_sat_scenario(
        "did:x",
        fx(1000.0),
        fx(0.0),
        fx(2_000_000.0),
        0,
        0,
        0,
        None,
    )
    .unwrap();
    assert_eq!(shard.triad.eco_impact, fx(1.0));
    let (half, _) =
        evaluate_sat_scenario("did:x", fx(1000.0), fx(0.0), fx(500_000.0), 0, 0, 0, None).unwrap();
    assert_eq!(half.triad.eco_impact, fx(0.5));
}

#[test]
fn scenario_is_held_against_the_previous_shard() {
    let looser = shard(0.93, 0.0, 0.3, 0.5);
    let (_, improves) = evaluate_sat_scenario(
        "did:x",
        fx(10.0),
        fx(5.0),
        fx(1000.0),
        fx(0.1),
        fx(8.0),
        fx(22.5),
        Some(looser),
    )
    .unwrap();
    assert!(improves);
    let tighter = shard(0.93, 0.0, 0.3, 0.1);
    let (_, improves) = evaluate_sat_scenario(
        "did:x",
        fx(10.0),
        fx(5.0),
        fx(1000.0),
        fx(0.1),
        fx(8.0),
        fx(22.5),
        Some(tighter),
    )
    .unwrap();
    assert!(!improves);
}

#[test]
fn missing_previous_has_a_message() {
    assert_eq!(SatEvalError::MissingPrevious.message(), "Previous shard missing or invalid");
}
