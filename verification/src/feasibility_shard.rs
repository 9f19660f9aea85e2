//! The feasibility record of a project.

use vstd::prelude::*;

verus! {

/// The feasibility of one project at one site in one year.
#[derive(Debug, PartialEq, Eq)]
pub struct FeasibilityShard {
    /// The shard's identifier.
    pub shardid: String,
    /// The project's identifier.
    pub projectid: String,
    /// The city of the site.
    pub city: String,
    /// The country of the site.
    pub country: String,
    /// The climate zone of the site.
    pub climate_zone: String,
    /// The latitude.
    pub lat: i64,
    /// The longitude.
    pub lon: i64,
    /// The year of the evaluation.
    pub eval_year: i32,
    /// The technical feasibility.
    pub tech_feas_score: i64,
    /// The eco-impact.
    pub ecoimpact_score: i64,
    /// The economic score.
    pub economic_score: i64,
    /// The risk score.
    pub risk_score: i64,
    /// The social and urban score.
    pub socialurban_score: i64,
    /// The knowledge factor.
    pub knowledgefactor: i64,
    /// The risk of harm.
    pub riskofharm: i64,
    /// The capital cost per linear metre, in euros.
    pub capex_per_m_linear_eur: i64,
    /// The energy cost per square metre and year, in kilowatt hours.
    pub opex_energy_kwh_m2y: i64,
    /// The maintenance cost per year, in euros.
    pub opex_maintenance_eur_y: i64,
    /// The price of water per cubic metre, in euros.
    pub water_price_eur_m3: i64,
    /// The tariff of wastewater per cubic metre, in euros.
    pub wastewater_tariff_eur_m3: i64,
    /// The payback in the best case, in years.
    pub payback_best_years: i64,
    /// The median payback, in years.
    pub payback_median_years: i64,
    /// The payback in the worst case, in years.
    pub payback_worst_years: i64,
    /// The share of water saved.
    pub water_saving_frac: i64,
    /// The share of heating and cooling energy saved.
    pub hvac_energy_saving_frac: i64,
    /// The share of nutrients recovered.
    pub nutrient_recovery_frac: i64,
    /// The food yield per square metre and year, in kilograms.
    pub food_yield_kg_m2y: i64,
    /// The photovoltaic generation per square metre and year.
    pub bipv_generation_kwh_m2y: i64,
    /// The greywater flow per day, in cubic metres.
    pub greywater_flow_m3_d: i64,
    /// The share of greywater reused.
    pub reuse_fraction: i64,
    /// The micropollutant corridor.
    pub mp_pollutant_corridor: i64,
    /// The habitat rating.
    pub hb_rating: i64,
    /// The impact on occupational safety.
    pub oc_impact_safety: i64,
    /// Whether the European reuse regulation is met.
    pub legal_eu2020_741_ok: bool,
    /// Whether the national water law is met.
    pub legal_whg_abwv_ok: bool,
    /// Whether the local greywater rules are met.
    pub legal_greywater_local_ok: bool,
    /// The number of corridors.
    pub corridors_count: i32,
    /// The number of gate predicates.
    pub gate_predicates_count: i32,
    /// The number of invariants verified.
    pub invariants_verified_count: i32,
    /// The procurement route.
    pub espd_route: String,
    /// Free notes.
    pub notes: String,
}

} // verus!
