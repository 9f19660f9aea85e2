//! The pilot cell for soil-aquifer treatment: its eco-benefit, its risk
//! coordinates, and whether a proposed configuration tightens the record.

use vstd::prelude::*;
use vstd::string::StringExecFns;
use crate::bands::{CorridorBands, Polarity};
use crate::fixed::{floor_div, integer_digits, integer_text, ONE};
use crate::normalize::{lemma_rising_risk, rising, rising_risk};
use crate::residual::{
    aggregated, all_well_formed, lemma_residual_within_total_weight, residual_of, total_weight,
    AggregationMode, RiskCoord,
};
use crate::response_shard::{evaluate_draft, DraftAssessment, ResponseShard, TriadInputs};

verus! {

/// The mass removed per day in kilograms: the nitrate taken out of each
/// cubic metre, in milligrams per litre, times a millionth, times the flow
/// in cubic metres per day. An outflow richer than the inflow removes
/// nothing. The result is rounded down.
pub open spec fn removed_kg(nitrate_in_mg_l: int, nitrate_out_mg_l: int, flow_m3_d: int) -> int {
    let delta = if nitrate_in_mg_l > nitrate_out_mg_l {
        nitrate_in_mg_l - nitrate_out_mg_l
    } else {
        0
    };
    delta * flow_m3_d / 1_000_000_000_000_000
}

/// `x` limited to what an `i64` holds.
pub open spec fn saturated(x: int) -> int {
    if x < i64::MIN {
        i64::MIN as int
    } else if x > i64::MAX {
        i64::MAX as int
    } else {
        x
    }
}

/// The eco-benefit of a cell: the mass of nitrate removed per day in
/// kilograms, limited to what the result can hold.
pub fn eco_benefit_kg_removed(nitrate_in_mg_l: i64, nitrate_out_mg_l: i64, flow_m3_d: i64) -> (kg:
    i64)
    ensures
        kg == saturated(
            removed_kg(nitrate_in_mg_l as int, nitrate_out_mg_l as int, flow_m3_d as int),
        ),
{
    let delta: i128 = if nitrate_in_mg_l > nitrate_out_mg_l {
        nitrate_in_mg_l as i128 - nitrate_out_mg_l as i128
    } else {
        0
    };
    assert(-0x7fff_ffff_ffff_ffff_8000_0000_0000_0000 <= delta * flow_m3_d
        <= 0x7fff_ffff_ffff_ffff_8000_0000_0000_0000) by (nonlinear_arith)
        requires
            0 <= delta <= 0xffff_ffff_ffff_ffff,
            -0x8000_0000_0000_0000 <= flow_m3_d <= 0x8000_0000_0000_0000,
    ;
    let q: i128 = floor_div(delta * (flow_m3_d as i128), 1_000_000_000_000_000);
    if q < i64::MIN as i128 {
        i64::MIN
    } else if q > i64::MAX as i128 {
        i64::MAX
    } else {
        q as i64
    }
}

/// The risk of `value` between `safe` and `hard`, where lower is safer. The
/// gold threshold does not enter.
pub fn normalize(value: i64, safe: i64, gold: i64, hard: i64) -> (r: i64)
    ensures
        r == rising_risk(value as int, safe as int, hard as int),
        0 <= r <= ONE,
{
    rising(value, safe, hard)
}

/// Whether `c` is the coordinate of the variable `id` with the given risk
/// and weight, under the band from 0 over 0.7 to 1.
pub open spec fn is_sat_coord(c: RiskCoord, id: Seq<char>, value: int, weight: int) -> bool {
    &&& c.value == value
    &&& c.sigma == 0
    &&& c.bands.var_id@ == id
    &&& c.bands.safe == 0
    &&& c.bands.gold == 700_000_000
    &&& c.bands.hard == ONE
    &&& c.bands.weight_w == weight
    &&& c.bands.safe_rx == 0
    &&& c.bands.polarity == Polarity::LowerIsSafer
}

/// Whether `coords` are the three coordinates of a scenario: hydraulic
/// loading between 0.05 and 0.25 metres per day with weight 0.4, PFAS
/// between 5 and 20 nanograms per litre with weight 0.4, and temperature
/// between 15 and 30 degrees with weight 0.2.
pub open spec fn are_sat_coords(coords: Seq<RiskCoord>, hlr_m_d: int, pfas_ng_l: int, temp_c: int)
    -> bool {
    &&& coords.len() == 3
    &&& is_sat_coord(
        coords[0],
        "r_sat"@,
        rising_risk(hlr_m_d, 50_000_000, 250_000_000),
        400_000_000,
    )
    &&& is_sat_coord(
        coords[1],
        "r_pfas"@,
        rising_risk(pfas_ng_l, 5_000_000_000, 20_000_000_000),
        400_000_000,
    )
    &&& is_sat_coord(
        coords[2],
        "r_temp"@,
        rising_risk(temp_c, 15_000_000_000, 30_000_000_000),
        200_000_000,
    )
}

fn sat_coord(var_id: &str, value: i64, weight: i64) -> (c: RiskCoord)
    requires
        0 <= value <= ONE,
        0 <= weight,
    ensures
        is_sat_coord(c, var_id@, value as int, weight as int),
        c.well_formed(),
{
    RiskCoord {
        value,
        sigma: 0,
        bands: CorridorBands::new(var_id, "", 0, 700_000_000, ONE, weight, 0, true),
    }
}

/// The scenario coordinates always aggregate, and to a residual in the unit
/// interval, because they are well formed and their weights add up to 1.
pub proof fn lemma_sat_coords_aggregate(
    coords: Seq<RiskCoord>,
    hlr_m_d: int,
    pfas_ng_l: int,
    temp_c: int,
)
    requires
        are_sat_coords(coords, hlr_m_d, pfas_ng_l, temp_c),
    ensures
        all_well_formed(coords),
        aggregated(coords, AggregationMode::Linear) matches Some(v) && 0 <= v <= ONE,
{
    lemma_rising_risk(hlr_m_d, hlr_m_d, 50_000_000, 250_000_000);
    lemma_rising_risk(pfas_ng_l, pfas_ng_l, 5_000_000_000, 20_000_000_000);
    lemma_rising_risk(temp_c, temp_c, 15_000_000_000, 30_000_000_000);
    assert(all_well_formed(coords));
    let s2 = coords.drop_last();
    let s1 = s2.drop_last();
    let s0 = s1.drop_last();
    assert(total_weight(s0) == 0);
    assert(total_weight(s1) == 400_000_000);
    assert(total_weight(s2) == 800_000_000);
    assert(total_weight(coords) == ONE);
    lemma_residual_within_total_weight(coords, AggregationMode::Linear);
}

/// The risk coordinates of a scenario from its hydraulic loading rate, its
/// PFAS concentration and its temperature.
pub fn sat_risk_coords(hlr_m_d: i64, pfas_ng_l: i64, temp_c: i64) -> (coords: Vec<RiskCoord>)
    ensures
        are_sat_coords(coords@, hlr_m_d as int, pfas_ng_l as int, temp_c as int),
        all_well_formed(coords@),
{
    let r_sat = normalize(hlr_m_d, 50_000_000, 150_000_000, 250_000_000);
    let r_pfas = normalize(pfas_ng_l, 5_000_000_000, 10_000_000_000, 20_000_000_000);
    let r_temp = normalize(temp_c, 15_000_000_000, 25_000_000_000, 30_000_000_000);
    let mut coords: Vec<RiskCoord> = Vec::new();
    coords.push(sat_coord("r_sat", r_sat, 400_000_000));
    coords.push(sat_coord("r_pfas", r_pfas, 400_000_000));
    coords.push(sat_coord("r_temp", r_temp, 200_000_000));
    proof {
        lemma_sat_coords_aggregate(coords@, hlr_m_d as int, pfas_ng_l as int, temp_c as int);
    }
    coords
}

/// Why a scenario could not be evaluated.
#[derive(Copy, Debug, PartialEq, Eq, Structural)]
pub enum SatEvalError {
    /// The previous shard is missing or invalid.
    MissingPrevious,
}

impl Clone for SatEvalError {
    fn clone(&self) -> (r: Self)
        ensures
            r == *self,
    {
        *self
    }
}

impl SatEvalError {
    /// The error in words.
    pub fn message(&self) -> (s: String)
        ensures
            s@ == "Previous shard missing or invalid"@,
    {
        "Previous shard missing or invalid".to_owned()
    }
}

/// The eco-impact of a benefit: 0 for none, 1 from a thousand kilograms on,
/// linear in between.
pub open spec fn eco_impact_of(benefit_kg: int) -> int {
    rising_risk(benefit_kg, 0, 1_000_000_000_000)
}

/// The risk of harm of a residual: the residual itself, but at most 0.3.
pub open spec fn risk_of(vt: int) -> int {
    if vt < 300_000_000 {
        vt
    } else {
        300_000_000
    }
}

/// The text of one line of evidence: the name of a quantity, an equals
/// sign, and its value as a count of billionths followed by `e-9`.
pub open spec fn evidence_text(name: Seq<char>, value: int) -> Seq<char> {
    name + "="@ + integer_digits(value) + "e-9"@
}

/// One line of evidence for a quantity and its value.
pub fn evidence_line(name: &str, value: i64) -> (line: String)
    ensures
        line@ == evidence_text(name@, value as int),
{
    let digits = integer_text(value);
    String::from_str(name).concat("=").concat(digits.as_str()).concat("e-9")
}

/// Evaluates a proposed configuration of the cell. The shard carries the
/// knowledge 0.93, the eco-impact of the nitrate removed, the risk of harm
/// of the residual, the residual of the three scenario coordinates, three
/// lines of evidence and the tags `mar`, `sat` and `phoenix`. The flag says
/// whether the shard tightens the previous one; without a previous shard it
/// does not. The evaluation always succeeds.
pub fn evaluate_sat_scenario(
    user_did: &str,
    nitrate_in_mg_l: i64,
    nitrate_out_mg_l: i64,
    flow_m3_d: i64,
    hlr_m_d: i64,
    pfas_ng_l: i64,
    temp_c: i64,
    prev_shard: Option<ResponseShard>,
) -> (r: Result<(ResponseShard, bool), SatEvalError>)
    ensures
        r matches Ok((shard, improves)) && {
            &&& shard.user_did@ == user_did@
            &&& shard.topic@ == "phoenix-mar-sat"@
            &&& shard.triad.knowledge == 930_000_000
            &&& shard.triad.eco_impact == eco_impact_of(
                saturated(
                    removed_kg(nitrate_in_mg_l as int, nitrate_out_mg_l as int, flow_m3_d as int),
                ),
            )
            &&& shard.triad.risk_of_harm == risk_of(shard.residual.vt as int)
            &&& are_sat_coords(
                shard.residual.coords@,
                hlr_m_d as int,
                pfas_ng_l as int,
                temp_c as int,
            )
            &&& shard.residual.consistent(AggregationMode::Linear)
            &&& 0 <= shard.residual.vt <= ONE
            &&& shard.evidence@.len() == 3
            &&& shard.evidence@[0]@ == evidence_text("nitrate_in_mg_l"@, nitrate_in_mg_l as int)
            &&& shard.evidence@[1]@ == evidence_text("nitrate_out_mg_l"@, nitrate_out_mg_l as int)
            &&& shard.evidence@[2]@ == evidence_text("flow_m3_d"@, flow_m3_d as int)
            &&& shard.corridor_tags@.len() == 3
            &&& shard.corridor_tags@[0]@ == "mar"@
            &&& shard.corridor_tags@[1]@ == "sat"@
            &&& shard.corridor_tags@[2]@ == "phoenix"@
            &&& improves == match prev_shard {
                Some(prev) => shard.tightens(&prev),
                None => false,
            }
        },
{
    let benefit = eco_benefit_kg_removed(nitrate_in_mg_l, nitrate_out_mg_l, flow_m3_d);
    let e = rising(benefit, 0, 1_000_000_000_000);
    let coords = sat_risk_coords(hlr_m_d, pfas_ng_l, temp_c);
    proof {
        lemma_sat_coords_aggregate(coords@, hlr_m_d as int, pfas_ng_l as int, temp_c as int);
    }
    let vt = match residual_of(&coords, AggregationMode::Linear) {
        Some(v) => v,
        None => vstd::pervasive::unreached(),
    };
    let k: i64 = 930_000_000;
    let r: i64 = if vt < 300_000_000 {
        vt
    } else {
        300_000_000
    };
    let mut evidence: Vec<String> = Vec::new();
    evidence.push(evidence_line("nitrate_in_mg_l", nitrate_in_mg_l));
    evidence.push(evidence_line("nitrate_out_mg_l", nitrate_out_mg_l));
    evidence.push(evidence_line("flow_m3_d", flow_m3_d));
    let mut corridor_tags: Vec<String> = Vec::new();
    corridor_tags.push("mar".to_owned());
    corridor_tags.push("sat".to_owned());
    corridor_tags.push("phoenix".to_owned());
    let draft = DraftAssessment {
        user_did: user_did.to_owned(),
        topic: "phoenix-mar-sat".to_owned(),
        base_triads: TriadInputs { k, e, r },
        base_coords: coords,
        evidence,
        corridor_tags,
    };
    let shard = match evaluate_draft(draft) {
        Some(s) => s,
        None => vstd::pervasive::unreached(),
    };
    let improves = match &prev_shard {
        Some(prev) => shard.improves_over(prev),
        None => false,
    };
    Ok((shard, improves))
}

} // verus!
