use ecosafety_core::bands::Polarity;
use ecosafety_core::bee_corridor::{
    bee_corridor_band, default_bee_corridor_bands_phoenix, BEE_VARID_OUT_OF_BAND,
    BEE_VARID_WIDTH_M,
};
use ecosafety_core::fixed::ONE;
use ecosafety_core::fog::{
    compute_r_algae, compute_r_arom, compute_r_deg, compute_r_pfas, compute_r_tot,
    compute_v_t_load, enrich_material_evidence, hydrate_fog_node_from_evidence, FogNodeShard,
    FogPanelMaterialEvidence, ToxicityCorridors,
};
use ecosafety_core::normalize::normalize_metric;
use ecosafety_core::research_lines::{KerGate, PhoenixResearchLines2026v1, ResearchLineId};

fn fx(x: f64) -> i64 {
    (x * 1e9).round() as i64
}

fn corridors() -> ToxicityCorridors {
    ToxicityCorridors {
        erc50_safe_mg_l: fx(100.0),
        erc50_hard_mg_l: fx(10.0),
        pfas_safe_ng_l: fx(4.0),
        pfas_hard_ng_l: fx(70.0),
        arom_safe_ng_l: fx(100.0),
        arom_hard_ng_l: fx(1000.0),
        r_tot_gate: fx(0.10),
    }
}

fn evidence() -> FogPanelMaterialEvidence {
    FogPanelMaterialEvidence {
        recipe_id: "FOG-PANEL-2026-01-A".into(),
        batch_id: "B1".into(),
        region: "Phoenix-AZ".into(),
        matrix_profile: "canal".into(),
        evidence_hex: "0xabc".into(),
        iso14851_thod28d_pct: fx(30.0),
        iso14851_thod180d_pct: fx(45.0),
        oecd201_erc50_mg_l: fx(55.0),
        oecd201_noec_mg_l: fx(10.0),
        lcms_pfas_pfbs_ng_l: fx(4.0),
        lcms_pfas_pfos_ng_l: fx(37.0),
        lcms_pfas_genx_ng_l: fx(20.0),
        lcms_aromatics_sum_ng_l: fx(550.0),
        r_deg: 0,
        r_algae: 0,
        r_pfas: 0,
        r_arom: 0,
        r_tot: 0,
        biosurface_ok: true,
        knowledge_factor: fx(0.8),
    }
}

fn node() -> FogNodeShard {
    FogNodeShard {
        nodeid: "n1".into(),
        timestamputc: "2026-01-01T00:00:00Z".into(),
        lat: fx(33.4),
        lon: fx(-112.0),
        region: "Phoenix-AZ".into(),
        matrix_profile: "canal".into(),
        env_profile_id: "PHX-FOG-ENV-01".into(),
        temp_c: fx(30.0),
        rh_pct: fx(20.0),
        pm10_ug_m3: fx(40.0),
        pfas_ng_l: fx(3.0),
        pfas_adsorption_ng_per_l: fx(1.0),
        hlr_max_l_m2_h: fx(5.0),
        dust_abrasion_pm10_ug_m3_threshold: fx(150.0),
        iso14851_thod28d_pct: 0,
        iso14851_thod180d_pct: 0,
        oecd201_erc50_mg_l: 0,
        oecd201_noec_mg_l: 0,
        r_deg: 0,
        r_algae: 0,
        r_pfas: 0,
        r_arom: 0,
        r_tot: 0,
        v_t: 0,
        v_t_ok: false,
        biosurfaceok: false,
        lyapunovok: false,
        ecoimpactscore: fx(0.9),
        karmadelta: 0,
        evidencehex: "0xdef".into(),
    }
}

#[test]
fn algal_risk_falls_with_the_inhibition_concentration() {
    let c = corridors();
    assert_eq!(compute_r_algae(fx(100.0), &c), 0);
    assert_eq!(compute_r_algae(fx(150.0), &c), 0);
    assert_eq!(compute_r_algae(fx(10.0), &c), ONE);
    assert_eq!(compute_r_algae(fx(1.0), &c), ONE);
    assert_eq!(compute_r_algae(fx(55.0), &c), fx(0.5));
    assert_eq!(compute_r_algae(fx(77.5), &c), fx(0.25));
}

#[test]
fn pfas_and_aromatics_risks_rise_with_the_concentration() {
    let c = corridors();
    assert_eq!(compute_r_pfas(fx(4.0), &c), 0);
    assert_eq!(compute_r_pfas(fx(70.0), &c), ONE);
    assert_eq!(compute_r_pfas(fx(37.0), &c), fx(0.5));
    assert_eq!(compute_r_arom(fx(100.0), &c), 0);
    assert_eq!(compute_r_arom(fx(1000.0), &c), ONE);
    assert_eq!(compute_r_arom(fx(325.0), &c), fx(0.25));
}

#[test]
fn degradation_risk_is_the_mean_shortfall() {
    assert_eq!(compute_r_deg(fx(60.0), fx(90.0)), 0);
    assert_eq!(compute_r_deg(fx(80.0), fx(95.0)), 0);
    // Half short after 28 days, on target after 180.
    assert_eq!(compute_r_deg(fx(30.0), fx(90.0)), fx(0.25));
    // Half short on both.
    assert_eq!(compute_r_deg(fx(30.0), fx(45.0)), fx(0.5));
    assert_eq!(compute_r_deg(0, 0), ONE);
    assert_eq!(compute_r_deg(fx(-60.0), fx(-90.0)), ONE);
    assert_eq!(compute_r_deg(i64::MIN, i64::MIN), ONE);
}

#[test]
fn total_toxicity_weighs_algae_pfas_and_aromatics() {
    assert_eq!(compute_r_tot(fx(0.5), fx(0.5), fx(0.5)), fx(0.5));
    assert_eq!(compute_r_tot(ONE, 0, 0), fx(0.5));
    assert_eq!(compute_r_tot(0, ONE, 0), fx(0.4));
    assert_eq!(compute_r_tot(0, 0, ONE), fx(0.1));
    assert_eq!(compute_r_tot(fx(3.0), fx(3.0), fx(3.0)), ONE);
    assert_eq!(compute_r_tot(fx(-3.0), 0, 0), 0);
    assert_eq!(compute_r_tot(i64::MAX, i64::MAX, i64::MAX), ONE);
    assert_eq!(compute_r_tot(i64::MIN, i64::MIN, i64::MIN), 0);
}

#[test]
fn evidence_is_enriched_with_its_risks() {
    let ev = enrich_material_evidence(evidence(), &corridors());
    assert_eq!(ev.r_deg, fx(0.5));
    assert_eq!(ev.r_algae, fx(0.5));
    // The largest PFAS concentration counts: 37 of 4..70.
    assert_eq!(ev.r_pfas, fx(0.5));
    assert_eq!(ev.r_arom, fx(0.5));
    assert_eq!(ev.r_tot, fx(0.5));
    assert!(!ev.biosurface_ok);
    assert_eq!(ev.recipe_id, "FOG-PANEL-2026-01-A");
    assert_eq!(ev.knowledge_factor, fx(0.8));
    assert_eq!(ev.oecd201_noec_mg_l, fx(10.0));

    let mut clean = evidence();
    clean.oecd201_erc50_mg_l = fx(120.0);
    clean.lcms_pfas_pfos_ng_l = fx(1.0);
    clean.lcms_pfas_genx_ng_l = fx(2.0);
    clean.lcms_aromatics_sum_ng_l = fx(1000.0);
    clean.biosurface_ok = false;
    let ev = enrich_material_evidence(clean, &corridors());
    assert_eq!((ev.r_algae, ev.r_pfas, ev.r_arom), (0, 0, ONE));
    assert_eq!(ev.r_tot, fx(0.1));
    assert!(ev.biosurface_ok);
}

#[test]
fn toxicity_load_of_a_node() {
    assert_eq!(compute_v_t_load(fx(0.5), fx(0.5), fx(0.5), fx(0.5)), fx(0.5));
    assert_eq!(compute_v_t_load(ONE, 0, 0, 0), fx(0.5));
    assert_eq!(compute_v_t_load(0, ONE, 0, 0), fx(0.2));
    assert_eq!(compute_v_t_load(0, 0, ONE, 0), fx(0.2));
    assert_eq!(compute_v_t_load(0, 0, 0, ONE), fx(0.1));
    assert_eq!(compute_v_t_load(0, 0, 0, -1), -1);
    assert_eq!(compute_v_t_load(i64::MAX, i64::MAX, i64::MAX, i64::MAX), i64::MAX);
}

#[test]
fn node_is_hydrated_from_evidence() {
    let ev = enrich_material_evidence(evidence(), &corridors());
    let out = hydrate_fog_node_from_evidence(node(), &ev, fx(-0.3), None);
    assert_eq!(out.iso14851_thod28d_pct, fx(30.0));
    assert_eq!(out.iso14851_thod180d_pct, fx(45.0));
    assert_eq!(out.oecd201_erc50_mg_l, fx(55.0));
    assert_eq!(out.oecd201_noec_mg_l, fx(10.0));
    assert_eq!((out.r_deg, out.r_algae, out.r_pfas, out.r_arom, out.r_tot), (
        fx(0.5),
        fx(0.5),
        fx(0.5),
        fx(0.5),
        fx(0.5)
    ));
    assert!(!out.biosurfaceok);
    assert_eq!(out.v_t, fx(-0.3));
    assert!(out.v_t_ok);
    assert!(out.lyapunovok);
    assert_eq!(out.nodeid, "n1");
    assert_eq!(out.ecoimpactscore, fx(0.9));
}

#[test]
fn node_residual_must_not_rise_outside_the_interior() {
    let ev = evidence();
    let ok = |v: f64, prev: f64| {
        hydrate_fog_node_from_evidence(node(), &ev, fx(v), Some(fx(prev))).v_t_ok
    };
    // Both at or below zero: free to float.
    assert!(ok(-0.1, -0.5));
    assert!(ok(0.0, -0.5));
    // Falling or equal: fine.
    assert!(ok(0.2, 0.3));
    assert!(ok(0.3, 0.3));
    // Rising above zero: not fine.
    assert!(!ok(0.1, -0.5));
    assert!(!ok(0.4, 0.3));
    let out = hydrate_fog_node_from_evidence(node(), &ev, fx(0.4), Some(fx(0.3)));
    assert_eq!(out.lyapunovok, out.v_t_ok);
}

#[test]
fn canonical_research_lines() {
    let table = PhoenixResearchLines2026v1::new();
    assert_eq!(table.epoch, "2026");
    assert_eq!(table.meta.epoch, "2026_research_only");
    assert_eq!(table.meta.ker_band_target.k_nominal, fx(0.95));
    assert_eq!(table.meta.ker_band_target.e_nominal, fx(0.93));
    assert_eq!(table.meta.ker_band_target.r_nominal, fx(0.10));
    assert_eq!(
        table.meta.ker_gate_production,
        KerGate { k_min: fx(0.90), e_min: fx(0.90), r_max: fx(0.13) }
    );
    assert_eq!(table.lines.len(), 8);
    assert_eq!(table.lines[0].id, ResearchLineId::EcosafetyGrammarCore);
    assert_eq!(
        table.lines[0].name,
        "Ecosafety grammar core (rx, Vt, corridorpresent, safestep)"
    );
    assert_eq!(table.lines[0].ker_current.k, fx(0.94));
    assert_eq!(table.lines[0].ker_current.e, fx(0.90));
    assert_eq!(table.lines[0].ker_current.r, fx(0.12));
    assert_eq!(table.lines[6].id, ResearchLineId::AirGlobeExhaustKernels);
    assert_eq!(table.lines[6].ker_target.k, fx(0.98));
    assert_eq!(table.lines[6].ker_target.r, fx(0.09));
    assert_eq!(table.lines[7].name, "Phoenix siting, logistics & soulsafety planning kernels");
    for line in table.lines.iter() {
        assert!(line.ker_current.is_well_formed());
        assert!(line.ker_target.is_well_formed());
    }
}

#[test]
fn lines_ready_for_production() {
    let table = PhoenixResearchLines2026v1::new();
    let ready: Vec<ResearchLineId> =
        table.lines_meeting_production_gate().iter().map(|l| l.id).collect();
    assert_eq!(
        ready,
        vec![
            ResearchLineId::EcosafetyGrammarCore,
            ResearchLineId::AirGlobeExhaustKernels,
            ResearchLineId::PhoenixSitingLogisticsSoulsafety
        ]
    );
    let mut strict = PhoenixResearchLines2026v1::new();
    strict.meta.ker_gate_production.r_max = fx(0.11);
    let ready: Vec<ResearchLineId> =
        strict.lines_meeting_production_gate().iter().map(|l| l.id).collect();
    assert_eq!(ready, vec![ResearchLineId::AirGlobeExhaustKernels]);
    strict.lines.clear();
    assert!(strict.lines_meeting_production_gate().is_empty());
}

#[test]
fn score_limits_are_inclusive() {
    let limits = KerGate { k_min: fx(0.9), e_min: fx(0.9), r_max: fx(0.13) };
    let table = PhoenixResearchLines2026v1::new();
    let mut ker = table.lines[0].ker_current;
    ker.k = fx(0.9);
    ker.e = fx(0.9);
    ker.r = fx(0.13);
    assert!(limits.passes(&ker));
    ker.r = fx(0.13) + 1;
    assert!(!limits.passes(&ker));
    ker.r = fx(0.13);
    ker.k = fx(0.9) - 1;
    assert!(!limits.passes(&ker));
    ker.k = fx(0.9);
    ker.e = fx(0.9) - 1;
    assert!(!limits.passes(&ker));
}

#[test]
fn default_bee_bands() {
    let bands = default_bee_corridor_bands_phoenix();
    assert_eq!(bands.len(), 13);
    assert_eq!(bands[0].var_id, BEE_VARID_WIDTH_M);
    assert_eq!(bands[0].var_id, "bee.width_m");
    assert_eq!(bands[0].units, "m");
    assert_eq!((bands[0].safe, bands[0].gold, bands[0].hard), (fx(10.0), fx(5.0), fx(2.0)));
    assert_eq!(bands[0].weight_w, fx(0.20));
    assert_eq!(bands[0].polarity, Polarity::HigherIsSafer);
    assert_eq!(bands[5].var_id, "bee.pesticide_load");
    assert_eq!(bands[5].units, "index");
    assert_eq!(bands[5].polarity, Polarity::LowerIsSafer);
    assert_eq!(bands[9].weight_w, fx(0.025));
    assert_eq!(bands[12].var_id, BEE_VARID_OUT_OF_BAND);
    assert_eq!(bands[12].lyap_channel, 6);
    let channels: Vec<u16> = bands.iter().map(|b| b.lyap_channel).collect();
    assert_eq!(channels, vec![1, 1, 1, 2, 2, 3, 3, 4, 4, 5, 5, 5, 6]);
    let total: i64 = bands.iter().map(|b| b.weight_w).sum();
    assert_eq!(total, fx(1.15));
    for b in bands.iter() {
        assert!(b.mandatory);
        assert!(b.is_well_formed());
    }
}

#[test]
fn bee_band_reads_its_polarity_off_the_thresholds() {
    let width = bee_corridor_band("bee.width_m", "m", fx(10.0), fx(5.0), fx(2.0), fx(0.2), 1, true);
    assert_eq!(width.polarity, Polarity::HigherIsSafer);
    // A corridor of 6 m lies halfway between 10 m and 2 m.
    assert_eq!(normalize_metric(fx(6.0), &width), Ok(fx(0.5)));
    assert_eq!(normalize_metric(fx(12.0), &width), Ok(0));
    assert_eq!(normalize_metric(fx(1.0), &width), Ok(ONE));
    let load = bee_corridor_band("bee.pesticide_load", "index", fx(0.2), fx(0.4), fx(0.6), 0, 3, false);
    assert_eq!(load.polarity, Polarity::LowerIsSafer);
    assert!(!load.mandatory);
    assert_eq!(normalize_metric(fx(0.3), &load), Ok(fx(0.25)));
}
