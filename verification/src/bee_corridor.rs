//! The shard of a pollinator corridor segment and its default bands.

use vstd::prelude::*;
use crate::bands::{all_bands_well_formed, polarity_of, CorridorBands};
use crate::fixed::MILLI;
use crate::ker::KerTriple;
use crate::residual::{Residual, RiskCoord};

verus! {

/// The identifier of the corridor width.
pub const BEE_VARID_WIDTH_M: &'static str = "bee.width_m";

/// The identifier of the continuity index.
pub const BEE_VARID_CONTINUITY_INDEX: &'static str = "bee.continuity_index";

/// The identifier of the flower density.
pub const BEE_VARID_FLOWER_DENSITY: &'static str = "bee.flower_density";

/// The identifier of the nectar-rich fraction.
pub const BEE_VARID_NECTAR_RICH_FRACTION: &'static str = "bee.nectar_rich_fraction";

/// The identifier of the bloom-season coverage.
pub const BEE_VARID_BLOOM_SEASON_COVERAGE: &'static str = "bee.bloom_season_coverage";

/// The identifier of the pesticide load.
pub const BEE_VARID_PESTICIDE_LOAD: &'static str = "bee.pesticide_load";

/// The identifier of the drift risk.
pub const BEE_VARID_DRIFT_RISK: &'static str = "bee.drift_risk";

/// The identifier of the thermal refuge.
pub const BEE_VARID_THERMAL_REFUGE: &'static str = "bee.thermal_refuge";

/// The identifier of the drought stress.
pub const BEE_VARID_DROUGHT_STRESS: &'static str = "bee.drought_stress";

/// The identifier of the roadkill risk.
pub const BEE_VARID_ROADKILL_RISK: &'static str = "bee.roadkill_risk";

/// The identifier of the light pollution.
pub const BEE_VARID_LIGHT_POLLUTION: &'static str = "bee.light_pollution";

/// The identifier of the air toxics.
pub const BEE_VARID_AIR_TOXICS: &'static str = "bee.air_toxics";

/// The identifier of the aggregated out-of-band indicator.
pub const BEE_VARID_OUT_OF_BAND: &'static str = "bee.out_of_band";

/// What identifies the shard of a corridor segment.
#[derive(Debug, PartialEq, Eq)]
pub struct BeeCorridorHeader {
    /// The shard's identifier.
    pub shard_id: String,
    /// The region of the segment.
    pub region: String,
    /// The segment's identifier.
    pub segment_id: String,
    /// Whether the state is simulated or live.
    pub sim_or_live: String,
    /// When the state was recorded.
    pub timestamp_utc: String,
    /// The primary author.
    pub authordid_primary: String,
    /// The alternative author, if there is one.
    pub authordid_alt: Option<String>,
    /// The anchor of the evidence.
    pub evidence_hex: String,
    /// The signature over the shard.
    pub did_signature: String,
}

/// The risk coordinates of a corridor segment.
#[derive(Debug, PartialEq, Eq)]
pub struct BeeCorridorRiskState {
    /// The width of the corridor.
    pub r_width_m: RiskCoord,
    /// The connectivity of the corridor.
    pub r_continuity_index: RiskCoord,
    /// The density of flowers.
    pub r_flower_density: RiskCoord,
    /// The share of nectar-rich flora.
    pub r_nectar_rich_fraction: RiskCoord,
    /// The share of weeks with adequate bloom.
    pub r_bloom_season_coverage: RiskCoord,
    /// The pesticide load.
    pub r_pesticide_load: RiskCoord,
    /// The risk of drift from sprayed fields.
    pub r_drift_risk: RiskCoord,
    /// The share of cool micro-habitat.
    pub r_thermal_refuge: RiskCoord,
    /// The water stress of the flora.
    pub r_drought_stress: RiskCoord,
    /// The closeness to traffic.
    pub r_roadkill_risk: RiskCoord,
    /// The light at night.
    pub r_light_pollution: RiskCoord,
    /// The air toxics at flight height.
    pub r_air_toxics: RiskCoord,
    /// The largest of the critical coordinates.
    pub r_out_of_band: RiskCoord,
}

/// The shard of a pollinator corridor segment.
#[derive(Debug, PartialEq, Eq)]
pub struct BeeCorridorShard2026v1 {
    /// Identity and provenance.
    pub header: BeeCorridorHeader,
    /// One band per variable.
    pub corridors: Vec<CorridorBands>,
    /// The risk coordinates of the segment.
    pub risk_state: BeeCorridorRiskState,
    /// The residual of the segment.
    pub residual: Residual,
    /// The scores of the segment.
    pub ker: KerTriple,
}

/// A band of a corridor variable. Thresholds are in the variable's own
/// units; the polarity is read off them and the safe interior ends at the
/// safe threshold.
pub fn bee_corridor_band(
    varid: &str,
    units: &str,
    safe: i64,
    gold: i64,
    hard: i64,
    weight_w: i64,
    lyap_channel: u16,
    mandatory: bool,
) -> (b: CorridorBands)
    ensures
        b.var_id@ == varid@,
        b.units@ == units@,
        b.safe == safe,
        b.gold == gold,
        b.hard == hard,
        b.weight_w == weight_w,
        b.safe_rx == safe,
        b.lyap_channel == lyap_channel,
        b.polarity == polarity_of(safe as int, hard as int),
        b.mandatory == mandatory,
        b.well_formed() <==> safe != hard && weight_w >= 0,
{
    CorridorBands::new(varid, units, safe, gold, hard, weight_w, lyap_channel, mandatory)
}

/// Whether `b` is the mandatory band of `id` in the given units, with the
/// given safe, gold and hard thresholds, weight and channel.
pub open spec fn is_bee_band(
    b: CorridorBands,
    id: Seq<char>,
    units: Seq<char>,
    thresholds: (int, int, int),
    weight: int,
    channel: int,
) -> bool {
    &&& b.var_id@ == id
    &&& b.units@ == units
    &&& b.safe == thresholds.0
    &&& b.gold == thresholds.1
    &&& b.hard == thresholds.2
    &&& b.weight_w == weight
    &&& b.safe_rx == thresholds.0
    &&& b.lyap_channel == channel
    &&& b.polarity == polarity_of(thresholds.0, thresholds.2)
    &&& b.mandatory
}

/// Whether `bands` is the default table of an urban corridor segment:
/// thirteen mandatory bands whose weights add up to 1.15.
pub open spec fn is_default_bee_table(bands: Seq<CorridorBands>) -> bool {
    &&& bands.len() == 13
    &&& is_bee_band(
        bands[0],
        BEE_VARID_WIDTH_M@,
        "m"@,
        (10000 * MILLI, 5000 * MILLI, 2000 * MILLI),
        200 * MILLI,
        1,
    )
    &&& is_bee_band(
        bands[1],
        BEE_VARID_CONTINUITY_INDEX@,
        "0-1"@,
        (850 * MILLI, 700 * MILLI, 500 * MILLI),
        200 * MILLI,
        1,
    )
    &&& is_bee_band(
        bands[2],
        BEE_VARID_FLOWER_DENSITY@,
        "flowers/m^2"@,
        (8000 * MILLI, 5000 * MILLI, 2000 * MILLI),
        100 * MILLI,
        1,
    )
    &&& is_bee_band(
        bands[3],
        BEE_VARID_NECTAR_RICH_FRACTION@,
        "0-1"@,
        (700 * MILLI, 500 * MILLI, 300 * MILLI),
        100 * MILLI,
        2,
    )
    &&& is_bee_band(
        bands[4],
        BEE_VARID_BLOOM_SEASON_COVERAGE@,
        "0-1"@,
        (850 * MILLI, 650 * MILLI, 400 * MILLI),
        100 * MILLI,
        2,
    )
    &&& is_bee_band(
        bands[5],
        BEE_VARID_PESTICIDE_LOAD@,
        "index"@,
        (200 * MILLI, 400 * MILLI, 600 * MILLI),
        100 * MILLI,
        3,
    )
    &&& is_bee_band(
        bands[6],
        BEE_VARID_DRIFT_RISK@,
        "0-1"@,
        (200 * MILLI, 400 * MILLI, 600 * MILLI),
        50 * MILLI,
        3,
    )
    &&& is_bee_band(
        bands[7],
        BEE_VARID_THERMAL_REFUGE@,
        "0-1"@,
        (600 * MILLI, 400 * MILLI, 200 * MILLI),
        50 * MILLI,
        4,
    )
    &&& is_bee_band(
        bands[8],
        BEE_VARID_DROUGHT_STRESS@,
        "0-1"@,
        (200 * MILLI, 400 * MILLI, 600 * MILLI),
        50 * MILLI,
        4,
    )
    &&& is_bee_band(
        bands[9],
        BEE_VARID_ROADKILL_RISK@,
        "0-1"@,
        (200 * MILLI, 400 * MILLI, 600 * MILLI),
        25 * MILLI,
        5,
    )
    &&& is_bee_band(
        bands[10],
        BEE_VARID_LIGHT_POLLUTION@,
        "0-1"@,
        (200 * MILLI, 400 * MILLI, 600 * MILLI),
        25 * MILLI,
        5,
    )
    &&& is_bee_band(
        bands[11],
        BEE_VARID_AIR_TOXICS@,
        "0-1"@,
        (200 * MILLI, 400 * MILLI, 600 * MILLI),
        50 * MILLI,
        5,
    )
    &&& is_bee_band(
        bands[12],
        BEE_VARID_OUT_OF_BAND@,
        "0-1"@,
        (300 * MILLI, 500 * MILLI, 700 * MILLI),
        100 * MILLI,
        6,
    )
}

/// The default bands of an urban corridor segment. For geometry, forage and
/// refuge higher is safer; for pesticides, drought, mortality and
/// disturbance lower is safer.
pub fn default_bee_corridor_bands_phoenix() -> (bands: Vec<CorridorBands>)
    ensures
        is_default_bee_table(bands@),
        all_bands_well_formed(bands@),
{
    let mut v: Vec<CorridorBands> = Vec::new();
    v.push(
        bee_corridor_band(
            BEE_VARID_WIDTH_M,
            "m",
            10000 * MILLI,
            5000 * MILLI,
            2000 * MILLI,
            200 * MILLI,
            1,
            true,
        ),
    );
    v.push(
        bee_corridor_band(
            BEE_VARID_CONTINUITY_INDEX,
            "0-1",
            850 * MILLI,
            700 * MILLI,
            500 * MILLI,
            200 * MILLI,
            1,
            true,
        ),
    );
    v.push(
        bee_corridor_band(
            BEE_VARID_FLOWER_DENSITY,
            "flowers/m^2",
            8000 * MILLI,
            5000 * MILLI,
            2000 * MILLI,
            100 * MILLI,
            1,
            true,
        ),
    );
    v.push(
        bee_corridor_band(
            BEE_VARID_NECTAR_RICH_FRACTION,
            "0-1",
            700 * MILLI,
            500 * MILLI,
            300 * MILLI,
            100 * MILLI,
            2,
            true,
        ),
    );
    v.push(
        bee_corridor_band(
            BEE_VARID_BLOOM_SEASON_COVERAGE,
            "0-1",
            850 * MILLI,
            650 * MILLI,
            400 * MILLI,
            100 * MILLI,
            2,
            true,
        ),
    );
    v.push(
        bee_corridor_band(
            BEE_VARID_PESTICIDE_LOAD,
            "index",
            200 * MILLI,
            400 * MILLI,
            600 * MILLI,
            100 * MILLI,
            3,
            true,
        ),
    );
    v.push(
        bee_corridor_band(
            BEE_VARID_DRIFT_RISK,
            "0-1",
            200 * MILLI,
            400 * MILLI,
            600 * MILLI,
            50 * MILLI,
            3,
            true,
        ),
    );
    v.push(
        bee_corridor_band(
            BEE_VARID_THERMAL_REFUGE,
            "0-1",
            600 * MILLI,
            400 * MILLI,
            200 * MILLI,
            50 * MILLI,
            4,
            true,
        ),
    );
    v.push(
        bee_corridor_band(
            BEE_VARID_DROUGHT_STRESS,
            "0-1",
            200 * MILLI,
            400 * MILLI,
            600 * MILLI,
            50 * MILLI,
            4,
            true,
        ),
    );
    v.push(
        bee_corridor_band(
            BEE_VARID_ROADKILL_RISK,
            "0-1",
            200 * MILLI,
            400 * MILLI,
            600 * MILLI,
            25 * MILLI,
            5,
            true,
        ),
    );
    v.push(
        bee_corridor_band(
            BEE_VARID_LIGHT_POLLUTION,
            "0-1",
            200 * MILLI,
            400 * MILLI,
            600 * MILLI,
            25 * MILLI,
            5,
            true,
        ),
    );
    v.push(
        bee_corridor_band(
            BEE_VARID_AIR_TOXICS,
            "0-1",
            200 * MILLI,
            400 * MILLI,
            600 * MILLI,
            50 * MILLI,
            5,
            true,
        ),
    );
    v.push(
        bee_corridor_band(
            BEE_VARID_OUT_OF_BAND,
            "0-1",
            300 * MILLI,
            500 * MILLI,
            700 * MILLI,
            100 * MILLI,
            6,
            true,
        ),
    );
    v
}

} // verus!
