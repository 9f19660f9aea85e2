//! Fog panels: the toxicity of a sorbent panel from its laboratory evidence,
//! and the node that carries a panel.

use vstd::prelude::*;
use crate::fixed::{clamped_to_unit, floor_div, ONE};
use crate::normalize::{falling, falling_risk, rising, rising_risk};

verus! {

/// The bands that laboratory values are normalised under.
#[derive(Copy, Debug, PartialEq, Eq, Structural)]
pub struct ToxicityCorridors {
    /// The algal inhibition concentration from which a panel is safe, in
    /// milligrams per litre.
    pub erc50_safe_mg_l: i64,
    /// The algal inhibition concentration down to which a panel is at its
    /// limit.
    pub erc50_hard_mg_l: i64,
    /// The PFAS concentration up to which a panel is safe, in nanograms per
    /// litre.
    pub pfas_safe_ng_l: i64,
    /// The PFAS concentration from which a panel is at its limit.
    pub pfas_hard_ng_l: i64,
    /// The aromatics concentration up to which a panel is safe, in
    /// nanograms per litre.
    pub arom_safe_ng_l: i64,
    /// The aromatics concentration from which a panel is at its limit.
    pub arom_hard_ng_l: i64,
    /// The largest total toxicity with which a panel passes.
    pub r_tot_gate: i64,
}

impl Clone for ToxicityCorridors {
    fn clone(&self) -> (r: Self)
        ensures
            r == *self,
    {
        *self
    }
}

/// The risk from algal ecotoxicity: the higher the inhibition
/// concentration, the safer.
pub fn compute_r_algae(erc50_mg_l: i64, c: &ToxicityCorridors) -> (r: i64)
    ensures
        r == falling_risk(erc50_mg_l as int, c.erc50_safe_mg_l as int, c.erc50_hard_mg_l as int),
        0 <= r <= ONE,
{
    falling(erc50_mg_l, c.erc50_safe_mg_l, c.erc50_hard_mg_l)
}

/// The risk from PFAS: the lower the largest concentration, the safer.
pub fn compute_r_pfas(max_pfas_ng_l: i64, c: &ToxicityCorridors) -> (r: i64)
    ensures
        r == rising_risk(max_pfas_ng_l as int, c.pfas_safe_ng_l as int, c.pfas_hard_ng_l as int),
        0 <= r <= ONE,
{
    rising(max_pfas_ng_l, c.pfas_safe_ng_l, c.pfas_hard_ng_l)
}

/// The risk from aromatics: the lower the summed concentration, the safer.
pub fn compute_r_arom(arom_sum_ng_l: i64, c: &ToxicityCorridors) -> (r: i64)
    ensures
        r == rising_risk(arom_sum_ng_l as int, c.arom_safe_ng_l as int, c.arom_hard_ng_l as int),
        0 <= r <= ONE,
{
    rising(arom_sum_ng_l, c.arom_safe_ng_l, c.arom_hard_ng_l)
}

/// The target of biodegradation after 28 days, in percent.
pub const TARGET_28D_PCT: i64 = 60_000_000_000;

/// The target of biodegradation after 180 days, in percent.
pub const TARGET_180D_PCT: i64 = 90_000_000_000;

/// By what share of the target a degradation falls short of it; zero where
/// it reaches the target.
pub open spec fn shortfall(reached_pct: int, target_pct: int) -> int {
    if reached_pct >= target_pct {
        0
    } else {
        (target_pct - reached_pct) * ONE / target_pct
    }
}

/// The risk from biodegradation: the mean of the shortfalls after 28 and
/// after 180 days, limited to the unit interval.
pub open spec fn degradation_risk(thod28d_pct: int, thod180d_pct: int) -> int {
    clamped_to_unit(
        (shortfall(thod28d_pct, TARGET_28D_PCT as int) + shortfall(
            thod180d_pct,
            TARGET_180D_PCT as int,
        )) / 2,
    )
}

fn shortfall_of(reached_pct: i64, target_pct: i64) -> (s: i128)
    requires
        0 < target_pct <= 100_000_000_000,
    ensures
        s == shortfall(reached_pct as int, target_pct as int),
        0 <= s <= 0x1_0000_0000_0000_0000_0000_0000,
{
    if reached_pct >= target_pct {
        0
    } else {
        let gap: i128 = target_pct as i128 - reached_pct as i128;
        assert(0 < gap <= 0x1_0000_0000_0000_0000);
        let scaled: i128 = gap * 1_000_000_000;
        assert(0 <= scaled as int / target_pct as int <= scaled) by (nonlinear_arith)
            requires
                0 <= scaled,
                0 < target_pct,
        ;
        scaled / (target_pct as i128)
    }
}

/// The risk from biodegradation, from the degradation reached after 28 and
/// after 180 days in percent. Falling short of 60 percent after 28 days or
/// of 90 percent after 180 days raises the risk.
pub fn compute_r_deg(thod28d_pct: i64, thod180d_pct: i64) -> (r: i64)
    ensures
        r == degradation_risk(thod28d_pct as int, thod180d_pct as int),
        0 <= r <= ONE,
{
    let short_28 = shortfall_of(thod28d_pct, TARGET_28D_PCT);
    let short_180 = shortfall_of(thod180d_pct, TARGET_180D_PCT);
    let mean: i128 = (short_28 + short_180) / 2;
    if mean > ONE as i128 {
        ONE
    } else {
        mean as i64
    }
}

/// The total toxicity: half the algal risk, four tenths of the PFAS risk
/// and one tenth of the aromatics risk, rounded down and limited to the unit
/// interval.
pub open spec fn total_toxicity(r_algae: int, r_pfas: int, r_arom: int) -> int {
    clamped_to_unit((5 * r_algae + 4 * r_pfas + r_arom) / 10)
}

/// The total toxicity index of a panel from its component risks. The
/// weights emphasise toxicity; no coordinate can be cancelled by another.
pub fn compute_r_tot(r_algae: i64, r_pfas: i64, r_arom: i64) -> (r: i64)
    ensures
        r == total_toxicity(r_algae as int, r_pfas as int, r_arom as int),
        0 <= r <= ONE,
{
    let sum: i128 = 5 * (r_algae as i128) + 4 * (r_pfas as i128) + r_arom as i128;
    let q: i128 = floor_div(sum, 10);
    if q < 0 {
        0
    } else if q > ONE as i128 {
        ONE
    } else {
        q as i64
    }
}

/// The laboratory evidence for a sorbent panel or a batch of media.
#[derive(Debug, PartialEq, Eq)]
pub struct FogPanelMaterialEvidence {
    /// The recipe of the panel.
    pub recipe_id: String,
    /// The batch of the panel.
    pub batch_id: String,
    /// The region of the test matrix.
    pub region: String,
    /// The profile of the test matrix.
    pub matrix_profile: String,
    /// The stamp over the evidence.
    pub evidence_hex: String,
    /// The biodegradation after 28 days, in percent.
    pub iso14851_thod28d_pct: i64,
    /// The biodegradation after 180 days, in percent.
    pub iso14851_thod180d_pct: i64,
    /// The algal inhibition concentration, in milligrams per litre.
    pub oecd201_erc50_mg_l: i64,
    /// The algal no-effect concentration, in milligrams per litre.
    pub oecd201_noec_mg_l: i64,
    /// The PFBS concentration, in nanograms per litre.
    pub lcms_pfas_pfbs_ng_l: i64,
    /// The PFOS concentration, in nanograms per litre.
    pub lcms_pfas_pfos_ng_l: i64,
    /// The GenX concentration, in nanograms per litre.
    pub lcms_pfas_genx_ng_l: i64,
    /// The summed aromatics concentration, in nanograms per litre.
    pub lcms_aromatics_sum_ng_l: i64,
    /// The risk from biodegradation.
    pub r_deg: i64,
    /// The risk from algal ecotoxicity.
    pub r_algae: i64,
    /// The risk from PFAS.
    pub r_pfas: i64,
    /// The risk from aromatics.
    pub r_arom: i64,
    /// The total toxicity.
    pub r_tot: i64,
    /// Whether the panel passes the toxicity gate.
    pub biosurface_ok: bool,
    /// How much of the evidence is covered.
    pub knowledge_factor: i64,
}

/// The largest of three values.
pub open spec fn largest(a: int, b: int, c: int) -> int {
    if a >= b && a >= c {
        a
    } else if b >= c {
        b
    } else {
        c
    }
}

/// Whether the risk fields of `out` are the ones that the laboratory values
/// of `ev` give under `c`.
pub open spec fn enriched(
    out: FogPanelMaterialEvidence,
    ev: FogPanelMaterialEvidence,
    c: ToxicityCorridors,
) -> bool {
    let r_algae = falling_risk(
        ev.oecd201_erc50_mg_l as int,
        c.erc50_safe_mg_l as int,
        c.erc50_hard_mg_l as int,
    );
    let r_pfas = rising_risk(
        largest(
            ev.lcms_pfas_pfbs_ng_l as int,
            ev.lcms_pfas_pfos_ng_l as int,
            ev.lcms_pfas_genx_ng_l as int,
        ),
        c.pfas_safe_ng_l as int,
        c.pfas_hard_ng_l as int,
    );
    let r_arom = rising_risk(
        ev.lcms_aromatics_sum_ng_l as int,
        c.arom_safe_ng_l as int,
        c.arom_hard_ng_l as int,
    );
    &&& out.r_deg == degradation_risk(
        ev.iso14851_thod28d_pct as int,
        ev.iso14851_thod180d_pct as int,
    )
    &&& out.r_algae == r_algae
    &&& out.r_pfas == r_pfas
    &&& out.r_arom == r_arom
    &&& out.r_tot == total_toxicity(r_algae, r_pfas, r_arom)
    &&& out.biosurface_ok == (out.r_tot <= c.r_tot_gate)
    &&& out == (FogPanelMaterialEvidence {
        r_deg: out.r_deg,
        r_algae: out.r_algae,
        r_pfas: out.r_pfas,
        r_arom: out.r_arom,
        r_tot: out.r_tot,
        biosurface_ok: out.biosurface_ok,
        ..ev
    })
}

/// Fills in the risk fields of a panel's evidence and whether it passes the
/// toxicity gate. The PFAS risk goes by the largest of the three PFAS
/// concentrations. Everything else is left as it is.
pub fn enrich_material_evidence(
    ev: FogPanelMaterialEvidence,
    corridors: &ToxicityCorridors,
) -> (out: FogPanelMaterialEvidence)
    ensures
        enriched(out, ev, *corridors),
{
    let mut out = ev;
    let mut max_pfas = out.lcms_pfas_pfbs_ng_l;
    if out.lcms_pfas_pfos_ng_l > max_pfas {
        max_pfas = out.lcms_pfas_pfos_ng_l;
    }
    if out.lcms_pfas_genx_ng_l > max_pfas {
        max_pfas = out.lcms_pfas_genx_ng_l;
    }
    out.r_deg = compute_r_deg(out.iso14851_thod28d_pct, out.iso14851_thod180d_pct);
    out.r_algae = compute_r_algae(out.oecd201_erc50_mg_l, corridors);
    out.r_pfas = compute_r_pfas(max_pfas, corridors);
    out.r_arom = compute_r_arom(out.lcms_aromatics_sum_ng_l, corridors);
    out.r_tot = compute_r_tot(out.r_algae, out.r_pfas, out.r_arom);
    out.biosurface_ok = out.r_tot <= corridors.r_tot_gate;
    out
}

/// The weighted toxicity that the residual of a node is the logarithm of:
/// half the total toxicity, two tenths each of the degradation and the algal
/// risk, and one tenth of the PFAS risk, rounded down.
pub open spec fn toxicity_load(r_tot: int, r_deg: int, r_algae: int, r_pfas: int) -> int {
    (5 * r_tot + 2 * r_deg + 2 * r_algae + r_pfas) / 10
}

/// The weighted toxicity of a node, limited to what the result can hold.
/// The residual of the node is the decimal logarithm of this load plus a
/// millionth; taking the logarithm is left to the caller.
pub fn compute_v_t_load(r_tot: i64, r_deg: i64, r_algae: i64, r_pfas: i64) -> (load: i64)
    ensures
        load == crate::sat_cell::saturated(
            toxicity_load(r_tot as int, r_deg as int, r_algae as int, r_pfas as int),
        ),
{
    let sum: i128 = 5 * (r_tot as i128) + 2 * (r_deg as i128) + 2 * (r_algae as i128)
        + r_pfas as i128;
    let q: i128 = floor_div(sum, 10);
    if q < i64::MIN as i128 {
        i64::MIN
    } else if q > i64::MAX as i128 {
        i64::MAX
    } else {
        q as i64
    }
}

/// The runtime shard of a node that carries a panel.
#[derive(Debug, PartialEq, Eq)]
pub struct FogNodeShard {
    /// The node's identifier.
    pub nodeid: String,
    /// When the state was recorded.
    pub timestamputc: String,
    /// The latitude.
    pub lat: i64,
    /// The longitude.
    pub lon: i64,
    /// The region of the node.
    pub region: String,
    /// The profile of the water matrix.
    pub matrix_profile: String,
    /// The profile of the environment.
    pub env_profile_id: String,
    /// The air temperature in degrees Celsius.
    pub temp_c: i64,
    /// The relative humidity in percent.
    pub rh_pct: i64,
    /// The coarse particulate matter in micrograms per cubic metre.
    pub pm10_ug_m3: i64,
    /// The PFAS in condensate or leachate, in nanograms per litre.
    pub pfas_ng_l: i64,
    /// The PFAS removed by the panel, in nanograms per litre.
    pub pfas_adsorption_ng_per_l: i64,
    /// The design hydraulic loading rate.
    pub hlr_max_l_m2_h: i64,
    /// The particulate matter from which the panel wears.
    pub dust_abrasion_pm10_ug_m3_threshold: i64,
    /// The biodegradation after 28 days, in percent.
    pub iso14851_thod28d_pct: i64,
    /// The biodegradation after 180 days, in percent.
    pub iso14851_thod180d_pct: i64,
    /// The algal inhibition concentration.
    pub oecd201_erc50_mg_l: i64,
    /// The algal no-effect concentration.
    pub oecd201_noec_mg_l: i64,
    /// The risk from biodegradation.
    pub r_deg: i64,
    /// The risk from algal ecotoxicity.
    pub r_algae: i64,
    /// The risk from PFAS.
    pub r_pfas: i64,
    /// The risk from aromatics.
    pub r_arom: i64,
    /// The total toxicity.
    pub r_tot: i64,
    /// The residual of the node.
    pub v_t: i64,
    /// Whether the residual keeps the step rule.
    pub v_t_ok: bool,
    /// Whether the panel passes the toxicity gate.
    pub biosurfaceok: bool,
    /// Whether the last step kept the step rule.
    pub lyapunovok: bool,
    /// The eco-impact score.
    pub ecoimpactscore: i64,
    /// The change of karma.
    pub karmadelta: i64,
    /// The stamp of the row.
    pub evidencehex: String,
}

/// Whether a residual keeps the step rule against the previous one: with no
/// previous residual it does; with both in the safe interior, at or below
/// zero, it does; otherwise it must not have increased.
pub open spec fn residual_step_ok(v_t: int, prev_v_t: Option<i64>) -> bool {
    match prev_v_t {
        Some(prev) => (prev <= 0 && v_t <= 0) || v_t <= prev,
        None => true,
    }
}

/// Whether `out` is `node` with the evidence of `ev`, the residual `v_t` and
/// the flags that follow from them.
pub open spec fn hydrated(
    out: FogNodeShard,
    node: FogNodeShard,
    ev: FogPanelMaterialEvidence,
    v_t: i64,
    prev_v_t: Option<i64>,
) -> bool {
    out == (FogNodeShard {
        iso14851_thod28d_pct: ev.iso14851_thod28d_pct,
        iso14851_thod180d_pct: ev.iso14851_thod180d_pct,
        oecd201_erc50_mg_l: ev.oecd201_erc50_mg_l,
        oecd201_noec_mg_l: ev.oecd201_noec_mg_l,
        r_deg: ev.r_deg,
        r_algae: ev.r_algae,
        r_pfas: ev.r_pfas,
        r_arom: ev.r_arom,
        r_tot: ev.r_tot,
        biosurfaceok: ev.biosurface_ok,
        v_t,
        v_t_ok: residual_step_ok(v_t as int, prev_v_t),
        lyapunovok: residual_step_ok(v_t as int, prev_v_t),
        ..node
    })
}

/// Updates a node shard from the evidence of its panel and the residual
/// `v_t` of the node: the laboratory values and risks are copied, and the
/// step rule is checked against the previous residual.
pub fn hydrate_fog_node_from_evidence(
    node: FogNodeShard,
    ev: &FogPanelMaterialEvidence,
    v_t: i64,
    prev_v_t: Option<i64>,
) -> (out: FogNodeShard)
    ensures
        hydrated(out, node, *ev, v_t, prev_v_t),
{
    let mut out = node;
    out.iso14851_thod28d_pct = ev.iso14851_thod28d_pct;
    out.iso14851_thod180d_pct = ev.iso14851_thod180d_pct;
    out.oecd201_erc50_mg_l = ev.oecd201_erc50_mg_l;
    out.oecd201_noec_mg_l = ev.oecd201_noec_mg_l;
    out.r_deg = ev.r_deg;
    out.r_algae = ev.r_algae;
    out.r_pfas = ev.r_pfas;
    out.r_arom = ev.r_arom;
    out.r_tot = ev.r_tot;
    out.biosurfaceok = ev.biosurface_ok;
    out.v_t = v_t;
    out.v_t_ok = match prev_v_t {
        Some(prev) => (prev <= 0 && v_t <= 0) || v_t <= prev,
        None => true,
    };
    out.lyapunovok = out.v_t_ok;
    out
}

} // verus!
