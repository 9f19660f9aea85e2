//! The corridors of a managed-aquifer-recharge cell with soil-aquifer
//! treatment, and the shard that records the cell's state.

use vstd::prelude::*;
use crate::bands::{CorridorBands, Polarity};
use crate::decision::{step_decision, CorridorDecision, InteriorRule, SafeStepDecider};
use crate::fixed::{CENT, ONE};
use crate::normalize::lemma_risk_in_unit_interval;
use crate::residual::{
    aggregate, aggregated, all_well_formed, coord_under, lemma_residual_within_total_weight,
    total_weight, AggregationMode, Residual, ResidualView, RiskCoord,
};

verus! {

/// The five corridors of a recharge cell.
#[derive(Copy, Debug, PartialEq, Eq, Structural)]
pub enum MarVarId {
    /// The overall health and loading of the soil-aquifer treatment.
    RSat,
    /// The breakthrough of PFAS.
    RPfas,
    /// The breakthrough of pharmaceuticals.
    RPharma,
    /// The shift of the recharge or aquifer temperature.
    RTemp,
    /// The hydraulic surcharge.
    RSurcharge,
}

impl Clone for MarVarId {
    fn clone(&self) -> (r: Self)
        ensures
            r == *self,
    {
        *self
    }
}

impl MarVarId {
    /// The identifier of the corridor as text.
    pub open spec fn text(self) -> Seq<char> {
        match self {
            MarVarId::RSat => "rSAT"@,
            MarVarId::RPfas => "rPFAS"@,
            MarVarId::RPharma => "rPHARMA"@,
            MarVarId::RTemp => "rTEMP"@,
            MarVarId::RSurcharge => "rSURCH"@,
        }
    }

    /// The identifier of the corridor.
    pub fn as_str(&self) -> (s: &'static str)
        ensures
            s@ == self.text(),
    {
        match self {
            MarVarId::RSat => "rSAT",
            MarVarId::RPfas => "rPFAS",
            MarVarId::RPharma => "rPHARMA",
            MarVarId::RTemp => "rTEMP",
            MarVarId::RSurcharge => "rSURCH",
        }
    }
}

/// The five identifiers differ from each other.
pub proof fn lemma_mar_ids_distinct(a: MarVarId, b: MarVarId)
    ensures
        a.text() == b.text() <==> a == b,
{
    reveal_strlit("rSAT");
    reveal_strlit("rPFAS");
    reveal_strlit("rPHARMA");
    reveal_strlit("rTEMP");
    reveal_strlit("rSURCH");
    if a != b {
        assert(a.text().len() != b.text().len() || a.text()[1] != b.text()[1]);
    }
}

/// The shard of one recharge cell.
#[derive(Debug, PartialEq, Eq)]
pub struct PhoenixMarSatShard {
    /// The shard's identifier.
    pub shard_id: String,
    /// The type of the module.
    pub moduletype: String,
    /// The region of the cell.
    pub region: String,
    /// Whether the state is simulated or live.
    pub sim_or_live: String,
    /// When the state was recorded, as an RFC 3339 date and time.
    pub timestamp_utc: String,
    /// The signature over the shard.
    pub did_signature: String,
    /// The corridor table.
    pub corridors: Vec<CorridorBands>,
    /// The current risk coordinates and their residual.
    pub risk_state: Residual,
    /// The knowledge factor.
    pub knowledge_factor: i64,
    /// The eco-impact value.
    pub eco_impact_value: i64,
    /// The risk of harm.
    pub risk_of_harm: i64,
}

/// Whether `b` is the mandatory, lower-is-safer band of `id` with the given
/// values, in dimensionless units.
pub open spec fn is_mar_band(
    b: CorridorBands,
    id: MarVarId,
    safe: int,
    gold: int,
    hard: int,
    weight: int,
    channel: int,
) -> bool {
    &&& b.var_id@ == id.text()
    &&& b.units@ == "dimensionless"@
    &&& b.safe == safe
    &&& b.gold == gold
    &&& b.hard == hard
    &&& b.weight_w == weight
    &&& b.safe_rx == safe
    &&& b.lyap_channel == channel
    &&& b.polarity == Polarity::LowerIsSafer
    &&& b.mandatory
}

/// Whether `bands` is the default corridor table of a recharge cell.
pub open spec fn is_default_mar_table(bands: Seq<CorridorBands>) -> bool {
    &&& bands.len() == 5
    &&& is_mar_band(bands[0], MarVarId::RSat, 30 * CENT, 60 * CENT, 95 * CENT, 30 * CENT, 0)
    &&& is_mar_band(bands[1], MarVarId::RPfas, 20 * CENT, 50 * CENT, 95 * CENT, 25 * CENT, 0)
    &&& is_mar_band(bands[2], MarVarId::RPharma, 20 * CENT, 50 * CENT, 95 * CENT, 15 * CENT, 0)
    &&& is_mar_band(bands[3], MarVarId::RTemp, 20 * CENT, 60 * CENT, 98 * CENT, 15 * CENT, 1)
    &&& is_mar_band(bands[4], MarVarId::RSurcharge, 10 * CENT, 40 * CENT, 90 * CENT, 15 * CENT, 2)
}

/// The default corridor table of a recharge cell: five mandatory corridors
/// whose weights add up to 1.
pub fn default_mar_sat_corridors() -> (bands: Vec<CorridorBands>)
    ensures
        is_default_mar_table(bands@),
        crate::bands::all_bands_well_formed(bands@),
{
    let mut bands: Vec<CorridorBands> = Vec::new();
    bands.push(
        CorridorBands::new(
            MarVarId::RSat.as_str(),
            "dimensionless",
            300_000_000,
            600_000_000,
            950_000_000,
            300_000_000,
            0,
            true,
        ),
    );
    bands.push(
        CorridorBands::new(
            MarVarId::RPfas.as_str(),
            "dimensionless",
            200_000_000,
            500_000_000,
            950_000_000,
            250_000_000,
            0,
            true,
        ),
    );
    bands.push(
        CorridorBands::new(
            MarVarId::RPharma.as_str(),
            "dimensionless",
            200_000_000,
            500_000_000,
            950_000_000,
            150_000_000,
            0,
            true,
        ),
    );
    bands.push(
        CorridorBands::new(
            MarVarId::RTemp.as_str(),
            "dimensionless",
            200_000_000,
            600_000_000,
            980_000_000,
            150_000_000,
            1,
            true,
        ),
    );
    bands.push(
        CorridorBands::new(
            MarVarId::RSurcharge.as_str(),
            "dimensionless",
            100_000_000,
            400_000_000,
            900_000_000,
            150_000_000,
            2,
            true,
        ),
    );
    bands
}

/// The first band of the table that carries the identifier `id`.
pub open spec fn band_for(bands: Seq<CorridorBands>, id: Seq<char>) -> Option<CorridorBands>
    decreases bands.len(),
{
    if bands.len() == 0 {
        None
    } else if bands[0].var_id@ == id {
        Some(bands[0])
    } else {
        band_for(bands.drop_first(), id)
    }
}

/// The first band of the table that carries the identifier `id`.
pub fn find_band<'a>(bands: &'a Vec<CorridorBands>, id: &str) -> (b: Option<&'a CorridorBands>)
    ensures
        match b {
            Some(found) => band_for(bands@, id@) == Some(*found),
            None => band_for(bands@, id@) is None,
        },
{
    let wanted = id.to_owned();
    let mut i: usize = 0;
    assert(bands@.skip(0) =~= bands@);
    while i < bands.len()
        invariant
            0 <= i <= bands.len(),
            wanted@ == id@,
            band_for(bands@, id@) == band_for(bands@.skip(i as int), id@),
        decreases bands.len() - i,
    {
        assert(bands@.skip(i as int)[0] == bands@[i as int]);
        assert(bands@.skip(i as int).drop_first() =~= bands@.skip(i + 1));
        if bands[i].var_id == wanted {
            return Some(&bands[i]);
        }
        i = i + 1;
    }
    None
}

/// Whether the table holds a band for each of the five corridors.
pub open spec fn corridors_complete(bands: Seq<CorridorBands>) -> bool {
    &&& band_for(bands, MarVarId::RSat.text()) is Some
    &&& band_for(bands, MarVarId::RPfas.text()) is Some
    &&& band_for(bands, MarVarId::RPharma.text()) is Some
    &&& band_for(bands, MarVarId::RTemp.text()) is Some
    &&& band_for(bands, MarVarId::RSurcharge.text()) is Some
}

/// Whether the table holds a band for each of the five corridors: no
/// corridor, no build.
pub fn corridor_present(bands: &Vec<CorridorBands>) -> (ok: bool)
    ensures
        ok == corridors_complete(bands@),
{
    find_band(bands, MarVarId::RSat.as_str()).is_some() && find_band(
        bands,
        MarVarId::RPfas.as_str(),
    ).is_some() && find_band(bands, MarVarId::RPharma.as_str()).is_some() && find_band(
        bands,
        MarVarId::RTemp.as_str(),
    ).is_some() && find_band(bands, MarVarId::RSurcharge.as_str()).is_some()
}

/// Whether the corridor table of a shard is complete.
pub fn invariant_mar_sat_corridor_complete(shard: &PhoenixMarSatShard) -> (ok: bool)
    ensures
        ok == corridors_complete(shard.corridors@),
{
    corridor_present(&shard.corridors)
}

/// The coordinate of one raw value: defined where the table holds a band for
/// `id` and that band is well formed.
pub open spec fn mar_coord(bands: Seq<CorridorBands>, id: MarVarId, raw: int) -> Option<RiskCoord> {
    match band_for(bands, id.text()) {
        Some(b) => if b.well_formed() {
            Some(coord_under(b, raw))
        } else {
            None
        },
        None => None,
    }
}

/// The five coordinates of a cell in their fixed order: treatment, PFAS,
/// pharmaceuticals, temperature, surcharge.
pub open spec fn mar_coords(
    bands: Seq<CorridorBands>,
    r_sat_raw: int,
    r_pfas_raw: int,
    r_pharma_raw: int,
    r_temp_raw: int,
    r_surcharge_raw: int,
) -> Option<Seq<RiskCoord>> {
    match (
        mar_coord(bands, MarVarId::RSat, r_sat_raw),
        mar_coord(bands, MarVarId::RPfas, r_pfas_raw),
        mar_coord(bands, MarVarId::RPharma, r_pharma_raw),
        mar_coord(bands, MarVarId::RTemp, r_temp_raw),
        mar_coord(bands, MarVarId::RSurcharge, r_surcharge_raw),
    ) {
        (Some(a), Some(b), Some(c), Some(d), Some(e)) => Some(seq![a, b, c, d, e]),
        _ => None,
    }
}

/// The risk state of a cell: its five coordinates and their linear residual.
pub open spec fn mar_risk_state(
    bands: Seq<CorridorBands>,
    r_sat_raw: int,
    r_pfas_raw: int,
    r_pharma_raw: int,
    r_temp_raw: int,
    r_surcharge_raw: int,
) -> Option<ResidualView> {
    match mar_coords(bands, r_sat_raw, r_pfas_raw, r_pharma_raw, r_temp_raw, r_surcharge_raw) {
        Some(coords) => match aggregated(coords, AggregationMode::Linear) {
            Some(v) => Some(ResidualView { vt: v, coords }),
            None => None,
        },
        None => None,
    }
}

fn coord_for(bands: &Vec<CorridorBands>, id: MarVarId, raw: i64) -> (c: Option<RiskCoord>)
    ensures
        c == mar_coord(bands@, id, raw as int),
{
    match find_band(bands, id.as_str()) {
        Some(b) => match RiskCoord::from_raw(raw, b) {
            Ok(c) => Some(c),
            Err(_) => None,
        },
        None => None,
    }
}

/// Normalises the five raw values of a cell under the bands of the table and
/// aggregates them. Nothing is returned where a corridor has no band, a band
/// has a defect, or the residual cannot be represented.
pub fn compute_mar_risk_state(
    bands: &Vec<CorridorBands>,
    r_sat_raw: i64,
    r_pfas_raw: i64,
    r_pharma_raw: i64,
    r_temp_raw: i64,
    r_surcharge_raw: i64,
) -> (r: Option<Residual>)
    ensures
        match r {
            Some(res) => Some(res@),
            None => None,
        } == mar_risk_state(
            bands@,
            r_sat_raw as int,
            r_pfas_raw as int,
            r_pharma_raw as int,
            r_temp_raw as int,
            r_surcharge_raw as int,
        ),
{
    let a = match coord_for(bands, MarVarId::RSat, r_sat_raw) {
        Some(c) => c,
        None => {
            return None;
        },
    };
    let b = match coord_for(bands, MarVarId::RPfas, r_pfas_raw) {
        Some(c) => c,
        None => {
            return None;
        },
    };
    let c = match coord_for(bands, MarVarId::RPharma, r_pharma_raw) {
        Some(c) => c,
        None => {
            return None;
        },
    };
    let d = match coord_for(bands, MarVarId::RTemp, r_temp_raw) {
        Some(c) => c,
        None => {
            return None;
        },
    };
    let e = match coord_for(bands, MarVarId::RSurcharge, r_surcharge_raw) {
        Some(c) => c,
        None => {
            return None;
        },
    };
    let mut coords: Vec<RiskCoord> = Vec::new();
    coords.push(a);
    coords.push(b);
    coords.push(c);
    coords.push(d);
    coords.push(e);
    assert(coords@ =~= seq![a, b, c, d, e]);
    aggregate(coords, AggregationMode::Linear)
}

/// A band that no earlier band shares its identifier with is the one the
/// table gives for that identifier.
pub proof fn lemma_band_for_at(bands: Seq<CorridorBands>, id: Seq<char>, i: int)
    requires
        0 <= i < bands.len(),
        bands[i].var_id@ == id,
        forall|j: int| 0 <= j < i ==> (#[trigger] bands[j]).var_id@ != id,
    ensures
        band_for(bands, id) == Some(bands[i]),
    decreases i,
{
    if i > 0 {
        let rest = bands.drop_first();
        assert(bands[0].var_id@ != id);
        assert(rest[i - 1] == bands[i]);
        assert forall|j: int| 0 <= j < i - 1 implies (#[trigger] rest[j]).var_id@ != id by {
            assert(rest[j] == bands[j + 1]);
        }
        lemma_band_for_at(rest, id, i - 1);
    }
}

/// Under the default table every cell has a risk state, whatever was
/// measured, and its residual lies in the unit interval.
pub proof fn lemma_default_table_always_has_state(
    bands: Seq<CorridorBands>,
    r_sat_raw: int,
    r_pfas_raw: int,
    r_pharma_raw: int,
    r_temp_raw: int,
    r_surcharge_raw: int,
)
    requires
        is_default_mar_table(bands),
    ensures
        corridors_complete(bands),
        mar_risk_state(bands, r_sat_raw, r_pfas_raw, r_pharma_raw, r_temp_raw, r_surcharge_raw)
            matches Some(state) && 0 <= state.vt <= ONE && state.coords.len() == 5,
{
    lemma_mar_ids_distinct(MarVarId::RSat, MarVarId::RPfas);
    lemma_mar_ids_distinct(MarVarId::RSat, MarVarId::RPharma);
    lemma_mar_ids_distinct(MarVarId::RSat, MarVarId::RTemp);
    lemma_mar_ids_distinct(MarVarId::RSat, MarVarId::RSurcharge);
    lemma_mar_ids_distinct(MarVarId::RPfas, MarVarId::RPharma);
    lemma_mar_ids_distinct(MarVarId::RPfas, MarVarId::RTemp);
    lemma_mar_ids_distinct(MarVarId::RPfas, MarVarId::RSurcharge);
    lemma_mar_ids_distinct(MarVarId::RPharma, MarVarId::RTemp);
    lemma_mar_ids_distinct(MarVarId::RPharma, MarVarId::RSurcharge);
    lemma_mar_ids_distinct(MarVarId::RTemp, MarVarId::RSurcharge);
    lemma_band_for_at(bands, MarVarId::RSat.text(), 0);
    lemma_band_for_at(bands, MarVarId::RPfas.text(), 1);
    lemma_band_for_at(bands, MarVarId::RPharma.text(), 2);
    lemma_band_for_at(bands, MarVarId::RTemp.text(), 3);
    lemma_band_for_at(bands, MarVarId::RSurcharge.text(), 4);
    lemma_risk_in_unit_interval(bands[0], r_sat_raw);
    lemma_risk_in_unit_interval(bands[1], r_pfas_raw);
    lemma_risk_in_unit_interval(bands[2], r_pharma_raw);
    lemma_risk_in_unit_interval(bands[3], r_temp_raw);
    lemma_risk_in_unit_interval(bands[4], r_surcharge_raw);
    let coords = mar_coords(
        bands,
        r_sat_raw,
        r_pfas_raw,
        r_pharma_raw,
        r_temp_raw,
        r_surcharge_raw,
    ).unwrap();
    assert(all_well_formed(coords));
    let s4 = coords.drop_last();
    let s3 = s4.drop_last();
    let s2 = s3.drop_last();
    let s1 = s2.drop_last();
    let s0 = s1.drop_last();
    assert(total_weight(s0) == 0);
    assert(total_weight(s1) == 300_000_000);
    assert(total_weight(s2) == 550_000_000);
    assert(total_weight(s3) == 700_000_000);
    assert(total_weight(s4) == 850_000_000);
    assert(total_weight(coords) == ONE);
    lemma_residual_within_total_weight(coords, AggregationMode::Linear);
}

/// The RFC 3339 rendering of the Unix time of `secs` seconds and `nanos`
/// nanoseconds, where that time can be represented.
pub uninterp spec fn rfc3339_text(secs: i64, nanos: u32) -> Option<Seq<char>>;

/// Makes a date and time in UTC with `chrono::DateTime::from_timestamp` and
/// renders it with `chrono::DateTime::to_rfc3339`. The result depends on the
/// two numbers alone; nothing is returned where `from_timestamp` finds them
/// out of range. Of the text itself nothing is claimed.
#[verifier::external_body]
fn rfc3339_from_unix(secs: i64, nanos: u32) -> (s: Option<String>)
    ensures
        match s {
            Some(t) => Some(t@),
            None => None,
        } == rfc3339_text(secs, nanos),
{
    match chrono::DateTime::from_timestamp(secs, nanos) {
        Some(t) => Some(t.to_rfc3339()),
        None => None,
    }
}

/// The RFC 3339 rendering of a Unix time, or nothing where the time cannot
/// be represented.
pub fn timestamp_utc(secs: i64, nanos: u32) -> (s: Option<String>)
    ensures
        match s {
            Some(t) => Some(t@),
            None => None,
        } == rfc3339_text(secs, nanos),
{
    rfc3339_from_unix(secs, nanos)
}

/// Builds the shard of a live cell from its telemetry and the text of the
/// time of the reading. The shard carries the default corridor table, the
/// risk state of the five raw values under it, and the research-only scores
/// 0.93, 0.92 and 0.14.
pub fn build_mar_shard_at(
    shard_id: String,
    region: String,
    did_signature: String,
    r_sat_raw: i64,
    r_pfas_raw: i64,
    r_pharma_raw: i64,
    r_temp_raw: i64,
    r_surcharge_raw: i64,
    timestamp_utc: String,
) -> (shard: PhoenixMarSatShard)
    ensures
        shard.shard_id == shard_id,
        shard.region == region,
        shard.did_signature == did_signature,
        shard.timestamp_utc == timestamp_utc,
        shard.moduletype@ == "PhoenixMARCell.v1"@,
        shard.sim_or_live@ == "live"@,
        is_default_mar_table(shard.corridors@),
        Some(shard.risk_state@) == mar_risk_state(
            shard.corridors@,
            r_sat_raw as int,
            r_pfas_raw as int,
            r_pharma_raw as int,
            r_temp_raw as int,
            r_surcharge_raw as int,
        ),
        0 <= shard.risk_state.vt <= ONE,
        shard.knowledge_factor == 930_000_000,
        shard.eco_impact_value == 920_000_000,
        shard.risk_of_harm == 140_000_000,
{
    let corridors = default_mar_sat_corridors();
    proof {
        lemma_default_table_always_has_state(
            corridors@,
            r_sat_raw as int,
            r_pfas_raw as int,
            r_pharma_raw as int,
            r_temp_raw as int,
            r_surcharge_raw as int,
        );
    }
    let risk_state = match compute_mar_risk_state(
        &corridors,
        r_sat_raw,
        r_pfas_raw,
        r_pharma_raw,
        r_temp_raw,
        r_surcharge_raw,
    ) {
        Some(state) => state,
        None => vstd::pervasive::unreached(),
    };
    PhoenixMarSatShard {
        shard_id,
        moduletype: "PhoenixMARCell.v1".to_owned(),
        region,
        sim_or_live: "live".to_owned(),
        timestamp_utc,
        did_signature,
        corridors,
        risk_state,
        knowledge_factor: 930_000_000,
        eco_impact_value: 920_000_000,
        risk_of_harm: 140_000_000,
    }
}

/// Builds the shard of a live cell from its telemetry and the time of the
/// reading, given as a Unix time and rendered as RFC 3339. Nothing is
/// returned where the time cannot be represented; otherwise the shard is the
/// one that `build_mar_shard_at` builds with the rendered time.
pub fn build_live_mar_shard_from_telemetry(
    shard_id: String,
    region: String,
    did_signature: String,
    r_sat_raw: i64,
    r_pfas_raw: i64,
    r_pharma_raw: i64,
    r_temp_raw: i64,
    r_surcharge_raw: i64,
    unix_secs: i64,
    subsec_nanos: u32,
) -> (r: Option<PhoenixMarSatShard>)
    ensures
        r is Some <==> rfc3339_text(unix_secs, subsec_nanos) is Some,
        r matches Some(shard) ==> {
            &&& shard.shard_id == shard_id
            &&& shard.region == region
            &&& shard.did_signature == did_signature
            &&& Some(shard.timestamp_utc@) == rfc3339_text(unix_secs, subsec_nanos)
            &&& shard.moduletype@ == "PhoenixMARCell.v1"@
            &&& shard.sim_or_live@ == "live"@
            &&& is_default_mar_table(shard.corridors@)
            &&& Some(shard.risk_state@) == mar_risk_state(
                shard.corridors@,
                r_sat_raw as int,
                r_pfas_raw as int,
                r_pharma_raw as int,
                r_temp_raw as int,
                r_surcharge_raw as int,
            )
            &&& 0 <= shard.risk_state.vt <= ONE
            &&& shard.knowledge_factor == 930_000_000
            &&& shard.eco_impact_value == 920_000_000
            &&& shard.risk_of_harm == 140_000_000
        },
{
    match rfc3339_from_unix(unix_secs, subsec_nanos) {
        Some(timestamp_utc) => Some(
            build_mar_shard_at(
                shard_id,
                region,
                did_signature,
                r_sat_raw,
                r_pfas_raw,
                r_pharma_raw,
                r_temp_raw,
                r_surcharge_raw,
                timestamp_utc,
            ),
        ),
        None => None,
    }
}

/// Judges the step of a cell from `prev` to `next`, with the safe interior
/// ending at `safe_interior_eps` for every coordinate.
pub fn mar_sat_safe_step(prev: &Residual, next: &Residual, safe_interior_eps: i64) -> (d:
    CorridorDecision)
    ensures
        d == step_decision(InteriorRule::Uniform(safe_interior_eps), *prev, *next),
{
    let decider = SafeStepDecider { interior: InteriorRule::Uniform(safe_interior_eps) };
    decider.decide(prev, next)
}

} // verus!
