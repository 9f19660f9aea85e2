//! Response shards: one turn of an assessment with its scores, its residual
//! and the evidence behind it.

use vstd::prelude::*;
use crate::decision::{step_decision, CorridorDecision, InteriorRule, SafeStepDecider};
use crate::residual::{aggregate, aggregated, AggregationMode, Residual, RiskCoord};

verus! {

/// Knowledge, eco-impact and risk of harm of a response.
#[derive(Copy, Debug, PartialEq, Eq, Structural)]
pub struct Triad {
    /// The knowledge factor.
    pub knowledge: i64,
    /// The eco-impact value.
    pub eco_impact: i64,
    /// The risk of harm.
    pub risk_of_harm: i64,
}

impl Clone for Triad {
    fn clone(&self) -> (r: Self)
        ensures
            r == *self,
    {
        *self
    }
}

/// The scores a draft states for itself.
#[derive(Copy, Debug, PartialEq, Eq, Structural)]
pub struct TriadInputs {
    /// The knowledge factor.
    pub k: i64,
    /// The eco-impact value.
    pub e: i64,
    /// The risk of harm.
    pub r: i64,
}

impl Clone for TriadInputs {
    fn clone(&self) -> (r: Self)
        ensures
            r == *self,
    {
        *self
    }
}

impl Residual {
    /// The residual of a list of coordinates, each weighted linearly.
    /// Nothing is returned where a coordinate is not well formed or the
    /// value cannot be represented.
    pub fn from_coords(coords: Vec<RiskCoord>) -> (r: Option<Residual>)
        ensures
            r is Some <==> aggregated(coords@, AggregationMode::Linear) is Some,
            r matches Some(res) ==> res.coords@ == coords@ && res.consistent(
                AggregationMode::Linear,
            ),
    {
        aggregate(coords, AggregationMode::Linear)
    }
}

/// The shard of one response turn.
#[derive(Debug, PartialEq, Eq)]
pub struct ResponseShard {
    /// Who the response is for.
    pub user_did: String,
    /// What the response is about.
    pub topic: String,
    /// The scores of the response.
    pub triad: Triad,
    /// The residual of the response.
    pub residual: Residual,
    /// The evidence behind the response.
    pub evidence: Vec<String>,
    /// The corridors the response touches.
    pub corridor_tags: Vec<String>,
}

impl ResponseShard {
    /// Whether this shard tightens `previous`: knowledge and eco-impact do
    /// not fall, and risk and residual do not rise.
    pub open spec fn tightens(&self, previous: &ResponseShard) -> bool {
        &&& self.triad.knowledge >= previous.triad.knowledge
        &&& self.triad.eco_impact >= previous.triad.eco_impact
        &&& self.triad.risk_of_harm <= previous.triad.risk_of_harm
        &&& self.residual.vt <= previous.residual.vt
    }

    /// Whether this shard tightens `previous`.
    pub fn improves_over(&self, previous: &ResponseShard) -> (ok: bool)
        ensures
            ok == self.tightens(previous),
    {
        let k_ok = self.triad.knowledge >= previous.triad.knowledge;
        let e_ok = self.triad.eco_impact >= previous.triad.eco_impact;
        let r_ok = self.triad.risk_of_harm <= previous.triad.risk_of_harm;
        let v_ok = self.residual.vt <= previous.residual.vt;
        k_ok && e_ok && r_ok && v_ok
    }
}

/// A draft from an upstream system, before it is wrapped into a shard.
#[derive(Debug, PartialEq, Eq)]
pub struct DraftAssessment {
    /// Who the draft is for.
    pub user_did: String,
    /// What the draft is about.
    pub topic: String,
    /// The scores the draft states.
    pub base_triads: TriadInputs,
    /// The coordinates the draft states.
    pub base_coords: Vec<RiskCoord>,
    /// The evidence behind the draft.
    pub evidence: Vec<String>,
    /// The corridors the draft touches.
    pub corridor_tags: Vec<String>,
}

/// Wraps a draft into a shard: the scores are taken over, the residual is
/// aggregated from the coordinates, everything else is moved. Nothing is
/// returned where the coordinates aggregate to nothing.
pub fn evaluate_draft(input: DraftAssessment) -> (r: Option<ResponseShard>)
    ensures
        r is Some <==> aggregated(input.base_coords@, AggregationMode::Linear) is Some,
        r matches Some(shard) ==> {
            &&& shard.user_did == input.user_did
            &&& shard.topic == input.topic
            &&& shard.triad == (Triad {
                knowledge: input.base_triads.k,
                eco_impact: input.base_triads.e,
                risk_of_harm: input.base_triads.r,
            })
            &&& shard.residual.coords@ == input.base_coords@
            &&& shard.residual.consistent(AggregationMode::Linear)
            &&& shard.evidence == input.evidence
            &&& shard.corridor_tags == input.corridor_tags
        },
{
    let residual = match Residual::from_coords(input.base_coords) {
        Some(r) => r,
        None => {
            return None;
        },
    };
    let triad = Triad {
        knowledge: input.base_triads.k,
        eco_impact: input.base_triads.e,
        risk_of_harm: input.base_triads.r,
    };
    Some(
        ResponseShard {
            user_did: input.user_did,
            topic: input.topic,
            triad,
            residual,
            evidence: input.evidence,
            corridor_tags: input.corridor_tags,
        },
    )
}

/// Whether some coordinate belongs to the variable `id`.
pub open spec fn has_coord(coords: Seq<RiskCoord>, id: Seq<char>) -> bool {
    exists|i: int| 0 <= i < coords.len() && (#[trigger] coords[i]).bands.var_id@ == id
}

/// Whether every required variable has a coordinate.
pub open spec fn all_required_have_coords(required: Seq<&str>, coords: Seq<RiskCoord>) -> bool {
    forall|j: int| 0 <= j < required.len() ==> has_coord(coords, (#[trigger] required[j])@)
}

/// Whether every required variable has a corridor row: no corridor, no
/// build.
pub fn no_corridor_no_build(required_vars: &[&str], coords: &[RiskCoord]) -> (ok: bool)
    ensures
        ok == all_required_have_coords(required_vars@, coords@),
{
    let mut j: usize = 0;
    while j < required_vars.len()
        invariant
            0 <= j <= required_vars.len(),
            forall|k: int| 0 <= k < j ==> has_coord(coords@, (#[trigger] required_vars@[k])@),
        decreases required_vars.len() - j,
    {
        let wanted = required_vars[j].to_owned();
        let mut found = false;
        let mut i: usize = 0;
        while i < coords.len() && !found
            invariant
                0 <= i <= coords.len(),
                wanted@ == required_vars@[j as int]@,
                found ==> has_coord(coords@, wanted@),
                !found ==> forall|k: int|
                    0 <= k < i ==> (#[trigger] coords@[k]).bands.var_id@ != wanted@,
            decreases coords.len() - i,
        {
            if coords[i].bands.var_id == wanted {
                found = true;
            }
            i = i + 1;
        }
        if !found {
            return false;
        }
        j = j + 1;
    }
    true
}

/// Judges the step between two response residuals. There is no safe
/// interior: a coordinate at or beyond its hard limit, or below zero, stops
/// the step; an increased residual derates it.
pub fn safestep(prev: &Residual, next: &Residual) -> (d: CorridorDecision)
    ensures
        d == step_decision(InteriorRule::Disabled, *prev, *next),
{
    let decider = SafeStepDecider { interior: InteriorRule::Disabled };
    decider.decide(prev, next)
}

} // verus!
