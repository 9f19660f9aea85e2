//! The shard of a managed-aquifer-recharge site with its hydraulics,
//! contaminants, thermal state and fouling, and the guards on it.

use vstd::prelude::*;
use crate::bands::CorridorBands;
use crate::decision::{step_outcome, InteriorRule, SafeStepDecider};
use crate::fixed::ONE;
use crate::ker::KerScore;
use crate::lifeforce::CorridorDecision;
use crate::normalize::normalize_metric;
use crate::residual::{aggregate, aggregated, AggregationMode, Residual, RiskCoord};

verus! {

/// The shard of one recharge site.
#[derive(Debug, PartialEq, Eq)]
pub struct MarShard {
    /// The site's identifier.
    pub mar_id: String,
    /// The basin's identifier.
    pub basin_id: String,
    /// The latitude.
    pub lat: i64,
    /// The longitude.
    pub lon: i64,
    /// The aquifer unit.
    pub aquifer_unit: String,
    /// The climate class.
    pub climate_class: String,
    /// The hydraulic loading rate.
    pub hlr_current: i64,
    /// The band of the hydraulic loading rate, named `HLR`.
    pub hlr_bands: CorridorBands,
    /// The inflow per day, in cubic metres.
    pub q_in_m3d: i64,
    /// The outflow per day, in cubic metres.
    pub q_out_m3d: i64,
    /// The residence time in days.
    pub res_time_d: i64,
    /// The number of surcharges.
    pub surcharge_count: u64,
    /// The surcharge coordinate.
    pub r_surcharge: RiskCoord,
    /// The PFAS going in, in nanograms per litre.
    pub c_pfas_in_ngl: i64,
    /// The PFAS coming out, in nanograms per litre.
    pub c_pfas_out_ngl: i64,
    /// The PFAS coordinate.
    pub r_pfas: RiskCoord,
    /// The pharmaceuticals going in, in nanograms per litre.
    pub c_pharma_in_ngl: i64,
    /// The pharmaceuticals coming out, in nanograms per litre.
    pub c_pharma_out_ngl: i64,
    /// The pharmaceuticals coordinate.
    pub r_pharma: RiskCoord,
    /// The nitrogen going in, in milligrams per litre.
    pub c_n_in_mgl: i64,
    /// The nitrogen coming out, in milligrams per litre.
    pub c_n_out_mgl: i64,
    /// The nitrogen coordinate.
    pub r_n: RiskCoord,
    /// The phosphorus going in, in milligrams per litre.
    pub c_p_in_mgl: i64,
    /// The phosphorus coming out, in milligrams per litre.
    pub c_p_out_mgl: i64,
    /// The phosphorus coordinate.
    pub r_p: RiskCoord,
    /// The temperature of the plume in degrees Celsius.
    pub t_plume_c: i64,
    /// The band of the temperature, named `TEMP`.
    pub t_bands: CorridorBands,
    /// The thermal coordinate.
    pub r_thermal: RiskCoord,
    /// The redox state in millivolts.
    pub redox_state_mv: i64,
    /// The redox coordinate.
    pub r_redox: RiskCoord,
    /// The fouling index.
    pub fouling_index: i64,
    /// The band of the fouling index, named `FOUL`.
    pub fouling_bands: CorridorBands,
    /// The cleaning dose.
    pub cleaning_dose_eq: i64,
    /// The fouling coordinate.
    pub r_foul: RiskCoord,
    /// The scores of the site.
    pub ker: KerScore,
}

impl MarShard {
    /// Whether every critical corridor of the shard carries the name of its
    /// variable.
    pub open spec fn corridors_named(&self) -> bool {
        &&& self.hlr_bands.var_id@ == "HLR"@
        &&& self.t_bands.var_id@ == "TEMP"@
        &&& self.fouling_bands.var_id@ == "FOUL"@
        &&& self.r_pfas.bands.var_id@ == "PFAS"@
        &&& self.r_pharma.bands.var_id@ == "PHARMA"@
        &&& self.r_n.bands.var_id@ == "N"@
        &&& self.r_p.bands.var_id@ == "P"@
        &&& self.r_thermal.bands.var_id@ == "TEMP"@
        &&& self.r_redox.bands.var_id@ == "REDOX"@
        &&& self.r_foul.bands.var_id@ == "FOUL"@
        &&& self.r_surcharge.bands.var_id@ == "SURCHARGE"@
    }

    /// Whether the site is safe for soil-aquifer treatment: the hydraulic
    /// loading rate can be normalised and is below its hard limit, and so
    /// are the surcharge and the fouling coordinate.
    pub open spec fn sat_safe(&self) -> bool {
        &&& self.hlr_bands.well_formed()
        &&& self.hlr_bands.risk_of(self.hlr_current as int) < ONE
        &&& self.r_surcharge.value < ONE
        &&& self.r_foul.value < ONE
    }
}

fn is_named(bands: &CorridorBands, name: &str) -> (ok: bool)
    ensures
        ok == (bands.var_id@ == name@),
{
    let wanted = name.to_owned();
    bands.var_id == wanted
}

/// Whether all critical corridors of the shard are present under their
/// names. Meant for build time: where this fails, nothing is built.
pub fn corridor_present(shard: &MarShard) -> (ok: bool)
    ensures
        ok == shard.corridors_named(),
{
    let mut ok = true;
    ok = ok && is_named(&shard.hlr_bands, "HLR");
    ok = ok && is_named(&shard.t_bands, "TEMP");
    ok = ok && is_named(&shard.fouling_bands, "FOUL");
    ok = ok && is_named(&shard.r_pfas.bands, "PFAS");
    ok = ok && is_named(&shard.r_pharma.bands, "PHARMA");
    ok = ok && is_named(&shard.r_n.bands, "N");
    ok = ok && is_named(&shard.r_p.bands, "P");
    ok = ok && is_named(&shard.r_thermal.bands, "TEMP");
    ok = ok && is_named(&shard.r_redox.bands, "REDOX");
    ok = ok && is_named(&shard.r_foul.bands, "FOUL");
    ok = ok && is_named(&shard.r_surcharge.bands, "SURCHARGE");
    ok
}

/// The residual of a list of coordinates with each risk squared: the sum of
/// weight times risk times risk. Nothing is returned where a coordinate is
/// not well formed or the value cannot be represented.
pub fn compute_residual(risks: &[RiskCoord]) -> (r: Option<Residual>)
    ensures
        r is Some <==> aggregated(risks@, AggregationMode::Squared) is Some,
        r matches Some(res) ==> res.coords@ == risks@ && res.consistent(AggregationMode::Squared),
{
    let mut coords: Vec<RiskCoord> = Vec::new();
    let mut i: usize = 0;
    while i < risks.len()
        invariant
            0 <= i <= risks.len(),
            coords@ == risks@.take(i as int),
        decreases risks.len() - i,
    {
        coords.push(risks[i].clone());
        assert(risks@.take(i + 1) =~= risks@.take(i as int).push(risks@[i as int]));
        i = i + 1;
    }
    assert(risks@.take(risks.len() as int) =~= risks@);
    aggregate(coords, AggregationMode::Squared)
}

/// Judges the step from `prev` to `next` and answers in flags: a coordinate
/// at its hard limit halts, a next state in its safe interior passes, and
/// otherwise an increased residual throttles.
pub fn safe_step(prev: &Residual, next: &Residual) -> (d: CorridorDecision)
    ensures
        d.reflects(
            step_outcome(InteriorRule::PerBand, prev.vt as int, next.vt as int, next.coords@),
        ),
{
    CorridorDecision::from_outcome(SafeStepDecider::per_band().evaluate(prev, next))
}

/// Whether the site is safe for soil-aquifer treatment, against fouling and
/// against surcharge.
pub fn sat_ok(shard: &MarShard) -> (ok: bool)
    ensures
        ok == shard.sat_safe(),
{
    match normalize_metric(shard.hlr_current, &shard.hlr_bands) {
        Ok(r_hlr) => r_hlr < ONE && shard.r_surcharge.value < ONE && shard.r_foul.value < ONE,
        Err(_) => false,
    }
}

} // verus!
