//! The pilot gate of vehicle exhaust filters: the chain governor with the
//! six corridors of a filter as mandatory variables, the default gate
//! calibration and the linear residual.

use vstd::prelude::*;
use crate::governor::{ChainGovernor, GateThresholds, GovernorRules, PilotGateDecision};
use crate::residual::{AggregationMode, Residual};
use crate::shard::{compute_shard_residual, shard_coords, shard_residual, Shard, ShardHeader};

verus! {

/// A shard of one filter at one time.
pub type VehicleFilterShard = Shard;

/// The header of a filter shard.
pub type VehicleFilterShardHeader = ShardHeader;

/// The identifiers of the corridors that every filter shard must carry:
/// particulate matter, nitrogen oxides, hydrocarbons, carbon monoxide, back
/// pressure and substrate temperature.
pub const REQUIRED_VARS: [&'static str; 6] = [
    "pm",
    "nox",
    "hc",
    "co",
    "backpressure",
    "substratetemp",
];

/// The identifiers of the corridors that every filter shard must carry.
pub open spec fn required_var_ids() -> Seq<Seq<char>> {
    seq!["pm"@, "nox"@, "hc"@, "co"@, "backpressure"@, "substratetemp"@]
}

/// The rules of the filter pilot gate.
pub open spec fn pilot_gate_rules() -> GovernorRules {
    GovernorRules {
        gates: GateThresholds::standard(),
        required: required_var_ids(),
        mode: AggregationMode::Linear,
    }
}

/// The required identifiers as owned strings.
pub fn required_vars() -> (v: Vec<String>)
    ensures
        crate::governor::ids_of(v@) == required_var_ids(),
{
    let mut v: Vec<String> = Vec::new();
    v.push(REQUIRED_VARS[0].to_owned());
    v.push(REQUIRED_VARS[1].to_owned());
    v.push(REQUIRED_VARS[2].to_owned());
    v.push(REQUIRED_VARS[3].to_owned());
    v.push(REQUIRED_VARS[4].to_owned());
    v.push(REQUIRED_VARS[5].to_owned());
    assert(crate::governor::ids_of(v@) =~= required_var_ids());
    v
}

/// The governor of the filter pilot gate.
pub fn pilot_gate_governor() -> (g: ChainGovernor)
    ensures
        g@ == pilot_gate_rules(),
{
    ChainGovernor::new(required_vars())
}

/// Whether a shard has a valid signature and carries all six required
/// corridors: no corridor, no deployment.
pub fn has_all_corridors(shard: &VehicleFilterShard) -> (ok: bool)
    ensures
        ok == pilot_gate_rules().complete(*shard),
{
    pilot_gate_governor().has_all_corridors(shard)
}

/// Normalises the risk coordinates of a shard and computes its residual, the
/// weighted sum of the risks. Nothing is returned for a shard without
/// corridors, with a defective band, or with a residual that cannot be
/// represented.
pub fn compute_residual(shard: &VehicleFilterShard) -> (r: Option<Residual>)
    ensures
        r is Some <==> shard_residual(*shard, AggregationMode::Linear) is Some,
        r matches Some(res) ==> res.coords@ == shard_coords(shard.corridors@) && shard_residual(
            *shard,
            AggregationMode::Linear,
        ) == Some(res.vt as int),
{
    compute_shard_residual(shard, AggregationMode::Linear)
}

/// Whether the step between two shards of a time series holds: both
/// residuals can be recomputed, the residual does not increase unless every
/// coordinate of `next` lies in its safe interior, and the timestamps
/// strictly increase.
pub fn safestep_shard(prev: &VehicleFilterShard, next: &VehicleFilterShard) -> (ok: bool)
    ensures
        ok == pilot_gate_rules().step_holds(*prev, *next),
{
    pilot_gate_governor().safestep(prev, next)
}

/// The approve gate: all required corridors present and signed, residual
/// below 0.5, eco-impact at least 0.9 and risk of harm at most 0.15.
pub fn pilot_gate_approve(shard: &VehicleFilterShard) -> (d: Option<PilotGateDecision>)
    ensures
        d == if pilot_gate_rules().approve_gate(*shard) {
            Some(PilotGateDecision::Approve)
        } else {
            None
        },
{
    pilot_gate_governor().gate_approve(shard)
}

/// The derate gate: residual from 0.5 up to, but not at, 1.0.
pub fn pilot_gate_derate(shard: &VehicleFilterShard) -> (d: Option<PilotGateDecision>)
    ensures
        d == if pilot_gate_rules().derate_gate(*shard) {
            Some(PilotGateDecision::Derate)
        } else {
            None
        },
{
    pilot_gate_governor().gate_derate(shard)
}

/// The stop gate: residual at or above 1.0.
pub fn pilot_gate_stop(shard: &VehicleFilterShard) -> (d: Option<PilotGateDecision>)
    ensures
        d == if pilot_gate_rules().stop_gate(*shard) {
            Some(PilotGateDecision::Stop)
        } else {
            None
        },
{
    pilot_gate_governor().gate_stop(shard)
}

/// Governs the chain of shards of one filter over time. Every link must
/// hold; then the last shard decides, stop before derate before approve.
pub fn govern_vehicle_filter_chain(chain: &[VehicleFilterShard]) -> (d: Option<
    PilotGateDecision,
>)
    ensures
        d == pilot_gate_rules().verdict(chain@),
{
    pilot_gate_governor().govern(chain)
}

} // verus!
