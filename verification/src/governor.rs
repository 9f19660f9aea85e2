//! The chain governor: one verdict for an ordered sequence of shards.

use vstd::prelude::*;
use crate::decision::{all_safe, is_all_safe, InteriorRule};
use crate::fixed::{HALF, ONE};
use crate::residual::AggregationMode;
use crate::shard::{
    all_required_present, compute_shard_residual, has_corridor, shard_coords, shard_residual,
    RiskCoordEntry, Shard,
};

verus! {

/// The verdict of the gates on a shard or a chain.
#[derive(Copy, Debug, PartialEq, Eq, Structural)]
pub enum PilotGateDecision {
    /// The state may go into operation.
    Approve,
    /// The state may operate throttled.
    Derate,
    /// The state must not operate.
    Stop,
}

impl Clone for PilotGateDecision {
    fn clone(&self) -> (r: Self)
        ensures
            r == *self,
    {
        *self
    }
}

/// Which rule gave a verdict.
#[derive(Copy, Debug, PartialEq, Eq, Structural)]
pub enum GateReason {
    /// The link from the shard at this position to the next one fails.
    BrokenLink(usize),
    /// The residual of the last shard has reached the stop threshold.
    ResidualAtStop,
    /// The residual of the last shard lies in the derate band.
    ResidualInDerateBand,
    /// The last shard meets every condition of approval.
    AllConditionsMet,
}

impl Clone for GateReason {
    fn clone(&self) -> (r: Self)
        ensures
            r == *self,
    {
        *self
    }
}

impl GateReason {
    /// The reason in words.
    pub open spec fn text(self) -> Seq<char> {
        match self {
            GateReason::BrokenLink(_) => "a link of the chain fails"@,
            GateReason::ResidualAtStop => "residual at or above the stop threshold"@,
            GateReason::ResidualInDerateBand => "residual in the derate band"@,
            GateReason::AllConditionsMet => "all conditions of approval met"@,
        }
    }

    /// The reason in words.
    pub fn message(&self) -> (s: String)
        ensures
            s@ == self.text(),
    {
        match self {
            GateReason::BrokenLink(_) => "a link of the chain fails".to_owned(),
            GateReason::ResidualAtStop => "residual at or above the stop threshold".to_owned(),
            GateReason::ResidualInDerateBand => "residual in the derate band".to_owned(),
            GateReason::AllConditionsMet => "all conditions of approval met".to_owned(),
        }
    }
}

/// A verdict together with the rule that gave it.
#[derive(Copy, Debug, PartialEq, Eq, Structural)]
pub struct GateFinding {
    /// The verdict.
    pub decision: PilotGateDecision,
    /// The rule behind the verdict.
    pub reason: GateReason,
}

impl Clone for GateFinding {
    fn clone(&self) -> (r: Self)
        ensures
            r == *self,
    {
        *self
    }
}

/// The calibration of the three gates.
#[derive(Copy, Debug, PartialEq, Eq, Structural)]
pub struct GateThresholds {
    /// The residual from which a state is derated; below it, it can be
    /// approved.
    pub derate_from: i64,
    /// The residual from which a state is stopped.
    pub stop_from: i64,
    /// The least eco-impact that approval asks for.
    pub eco_impact_min: i64,
    /// The largest risk of harm that approval admits.
    pub risk_of_harm_max: i64,
}

impl Clone for GateThresholds {
    fn clone(&self) -> (r: Self)
        ensures
            r == *self,
    {
        *self
    }
}

/// The default derate threshold, 0.5.
pub const DERATE_FROM: i64 = HALF;

/// The default stop threshold, 1.0.
pub const STOP_FROM: i64 = ONE;

/// The default least eco-impact for approval, 0.9.
pub const ECO_IMPACT_MIN: i64 = 900_000_000;

/// The default largest risk of harm for approval, 0.15.
pub const RISK_OF_HARM_MAX: i64 = 150_000_000;

impl GateThresholds {
    /// The default calibration.
    pub open spec fn standard() -> GateThresholds {
        GateThresholds {
            derate_from: DERATE_FROM,
            stop_from: STOP_FROM,
            eco_impact_min: ECO_IMPACT_MIN,
            risk_of_harm_max: RISK_OF_HARM_MAX,
        }
    }
}

impl Default for GateThresholds {
    fn default() -> (g: Self)
        ensures
            g == GateThresholds::standard(),
    {
        GateThresholds {
            derate_from: DERATE_FROM,
            stop_from: STOP_FROM,
            eco_impact_min: ECO_IMPACT_MIN,
            risk_of_harm_max: RISK_OF_HARM_MAX,
        }
    }
}

/// The rules a governor applies, as plain values.
pub struct GovernorRules {
    /// The calibration of the gates.
    pub gates: GateThresholds,
    /// The identifiers of the mandatory corridors.
    pub required: Seq<Seq<char>>,
    /// How coordinates enter the residual.
    pub mode: AggregationMode,
}

/// The identifiers that a list of strings holds.
pub open spec fn ids_of(names: Seq<String>) -> Seq<Seq<char>> {
    Seq::new(names.len(), |i: int| names[i]@)
}

/// Whether every identifier of `required` is carried by some entry.
pub open spec fn carries_all(required: Seq<Seq<char>>, entries: Seq<RiskCoordEntry>) -> bool {
    forall|j: int| 0 <= j < required.len() ==> has_corridor(entries, #[trigger] required[j])
}

impl GovernorRules {
    /// A shard is complete when its signature is valid and it carries every
    /// mandatory corridor.
    pub open spec fn complete(self, shard: Shard) -> bool {
        shard.header.didsignature_valid && carries_all(self.required, shard.corridors@)
    }

    /// The step from `prev` to `next` holds when both residuals can be
    /// recomputed, the residual does not increase unless `next` lies in its
    /// safe interior, and time moves strictly forward.
    pub open spec fn step_holds(self, prev: Shard, next: Shard) -> bool {
        match (shard_residual(prev, self.mode), shard_residual(next, self.mode)) {
            (Some(pv), Some(nv)) => {
                &&& all_safe(InteriorRule::PerBand, shard_coords(next.corridors@)) || nv <= pv
                &&& prev.header.timestamp < next.header.timestamp
            },
            _ => false,
        }
    }

    /// A link of the chain holds when the step holds and both shards are
    /// complete.
    pub open spec fn link_holds(self, prev: Shard, next: Shard) -> bool {
        self.step_holds(prev, next) && self.complete(prev) && self.complete(next)
    }

    /// Whether the link from position `i` to the next one holds.
    pub open spec fn link_at(self, chain: Seq<Shard>, i: int) -> bool {
        self.link_holds(chain[i], chain[i + 1])
    }

    /// Whether every link of the chain holds.
    pub open spec fn all_links_hold(self, chain: Seq<Shard>) -> bool {
        forall|i: int| 0 <= i < chain.len() - 1 ==> #[trigger] self.link_at(chain, i)
    }

    /// The stop gate: the residual has reached the stop threshold.
    pub open spec fn stop_gate(self, shard: Shard) -> bool {
        shard_residual(shard, self.mode) matches Some(v) && v >= self.gates.stop_from
    }

    /// The derate gate: the residual lies from the derate threshold up to,
    /// but not at, the stop threshold.
    pub open spec fn derate_gate(self, shard: Shard) -> bool {
        shard_residual(shard, self.mode) matches Some(v) && self.gates.derate_from <= v
            < self.gates.stop_from
    }

    /// The approve gate: the shard is complete, its residual lies below the
    /// derate threshold, its scores lie in the unit interval, its eco-impact
    /// is high enough and its risk of harm low enough.
    pub open spec fn approve_gate(self, shard: Shard) -> bool {
        &&& self.complete(shard)
        &&& shard_residual(shard, self.mode) matches Some(v) && v < self.gates.derate_from
        &&& shard.ker.well_formed()
        &&& shard.ker.ecoimpact_value >= self.gates.eco_impact_min
        &&& shard.ker.risk_of_harm <= self.gates.risk_of_harm_max
    }

    /// The gates on one shard in their order of priority: stop, derate,
    /// approve. Where none fires there is no decision.
    pub open spec fn gate_verdict(self, shard: Shard) -> Option<PilotGateDecision> {
        if self.stop_gate(shard) {
            Some(PilotGateDecision::Stop)
        } else if self.derate_gate(shard) {
            Some(PilotGateDecision::Derate)
        } else if self.approve_gate(shard) {
            Some(PilotGateDecision::Approve)
        } else {
            None
        }
    }

    /// The verdict on a chain: none for the empty chain, `Stop` where a link
    /// fails, and otherwise what the gates say of the last shard.
    pub open spec fn verdict(self, chain: Seq<Shard>) -> Option<PilotGateDecision> {
        if chain.len() == 0 {
            None
        } else if !self.all_links_hold(chain) {
            Some(PilotGateDecision::Stop)
        } else {
            self.gate_verdict(chain.last())
        }
    }
}

impl GovernorRules {
    /// Whether the link at position `i` is the first one that fails.
    pub open spec fn first_broken_at(self, chain: Seq<Shard>, i: int) -> bool {
        &&& 0 <= i < chain.len() - 1
        &&& !self.link_at(chain, i)
        &&& forall|k: int| 0 <= k < i ==> #[trigger] self.link_at(chain, k)
    }

    /// The gates on one shard with the rule that fires.
    pub open spec fn gate_finding(self, shard: Shard) -> Option<GateFinding> {
        if self.stop_gate(shard) {
            Some(
                GateFinding {
                    decision: PilotGateDecision::Stop,
                    reason: GateReason::ResidualAtStop,
                },
            )
        } else if self.derate_gate(shard) {
            Some(
                GateFinding {
                    decision: PilotGateDecision::Derate,
                    reason: GateReason::ResidualInDerateBand,
                },
            )
        } else if self.approve_gate(shard) {
            Some(
                GateFinding {
                    decision: PilotGateDecision::Approve,
                    reason: GateReason::AllConditionsMet,
                },
            )
        } else {
            None
        }
    }

    /// Whether `found` is the finding on the chain: none for the empty
    /// chain; `Stop` with the position of the first failing link where a
    /// link fails; and otherwise what the gates find on the last shard.
    pub open spec fn is_finding(self, chain: Seq<Shard>, found: Option<GateFinding>) -> bool {
        if chain.len() == 0 {
            found is None
        } else if !self.all_links_hold(chain) {
            found matches Some(f) && f.decision == PilotGateDecision::Stop && (
            f.reason matches GateReason::BrokenLink(i) && self.first_broken_at(chain, i as int))
        } else {
            found == self.gate_finding(chain.last())
        }
    }
}

/// The decision of a finding is the verdict on the chain.
pub proof fn lemma_finding_gives_verdict(
    rules: GovernorRules,
    chain: Seq<Shard>,
    found: Option<GateFinding>,
)
    requires
        rules.is_finding(chain, found),
    ensures
        rules.verdict(chain) == match found {
            Some(f) => Some(f.decision),
            None => None,
        },
{
}

/// A chain whose last shard has reached the stop threshold is stopped,
/// whatever its links do.
pub proof fn lemma_stop_dominates(rules: GovernorRules, chain: Seq<Shard>)
    requires
        chain.len() > 0,
        rules.stop_gate(chain.last()),
    ensures
        rules.verdict(chain) == Some(PilotGateDecision::Stop),
{
}

/// A chain is approved only if all its links hold and its last shard passes
/// the approve gate.
pub proof fn lemma_approval_needs_everything(rules: GovernorRules, chain: Seq<Shard>)
    requires
        rules.verdict(chain) == Some(PilotGateDecision::Approve),
    ensures
        chain.len() > 0,
        rules.all_links_hold(chain),
        rules.approve_gate(chain.last()),
        rules.complete(chain.last()),
{
}

/// The governor of one domain: gate calibration, mandatory corridors and
/// aggregation mode.
#[derive(Debug, PartialEq, Eq)]
pub struct ChainGovernor {
    /// The calibration of the gates.
    pub gates: GateThresholds,
    /// The identifiers of the mandatory corridors.
    pub required_vars: Vec<String>,
    /// How coordinates enter the residual.
    pub mode: AggregationMode,
}

impl View for ChainGovernor {
    type V = GovernorRules;

    open spec fn view(&self) -> GovernorRules {
        GovernorRules {
            gates: self.gates,
            required: ids_of(self.required_vars@),
            mode: self.mode,
        }
    }
}

impl ChainGovernor {
    /// A governor with the default gate calibration and the linear residual.
    pub fn new(required_vars: Vec<String>) -> (g: ChainGovernor)
        ensures
            g.gates == GateThresholds::standard(),
            g.required_vars == required_vars,
            g.mode == AggregationMode::Linear,
    {
        ChainGovernor {
            gates: GateThresholds::default(),
            required_vars,
            mode: AggregationMode::Linear,
        }
    }

    /// Whether the shard's signature is valid and it carries every mandatory
    /// corridor.
    pub fn has_all_corridors(&self, shard: &Shard) -> (ok: bool)
        ensures
            ok == self@.complete(*shard),
    {
        if !shard.header.didsignature_valid {
            return false;
        }
        let ok = all_required_present(&self.required_vars, &shard.corridors);
        proof {
            let req = self.required_vars@;
            if ok {
                assert forall|j: int| 0 <= j < ids_of(req).len() implies has_corridor(
                    shard.corridors@,
                    #[trigger] ids_of(req)[j],
                ) by {
                    assert(has_corridor(shard.corridors@, req[j]@));
                }
            } else {
                let j = choose|j: int|
                    0 <= j < req.len() && !has_corridor(shard.corridors@, (#[trigger] req[j])@);
                assert(!has_corridor(shard.corridors@, ids_of(req)[j]));
            }
        }
        ok
    }

    /// Whether the step from `prev` to `next` holds.
    pub fn safestep(&self, prev: &Shard, next: &Shard) -> (ok: bool)
        ensures
            ok == self@.step_holds(*prev, *next),
    {
        let prev_res = match compute_shard_residual(prev, self.mode) {
            Some(r) => r,
            None => {
                return false;
            },
        };
        let next_res = match compute_shard_residual(next, self.mode) {
            Some(r) => r,
            None => {
                return false;
            },
        };
        let interior = is_all_safe(InteriorRule::PerBand, &next_res.coords);
        let lyapunov_ok = interior || next_res.vt <= prev_res.vt;
        let time_ok = prev.header.timestamp < next.header.timestamp;
        lyapunov_ok && time_ok
    }

    /// The stop gate on one shard.
    pub fn gate_stop(&self, shard: &Shard) -> (d: Option<PilotGateDecision>)
        ensures
            d == if self@.stop_gate(*shard) {
                Some(PilotGateDecision::Stop)
            } else {
                None
            },
    {
        match compute_shard_residual(shard, self.mode) {
            Some(res) => {
                if res.vt >= self.gates.stop_from {
                    Some(PilotGateDecision::Stop)
                } else {
                    None
                }
            },
            None => None,
        }
    }

    /// The derate gate on one shard.
    pub fn gate_derate(&self, shard: &Shard) -> (d: Option<PilotGateDecision>)
        ensures
            d == if self@.derate_gate(*shard) {
                Some(PilotGateDecision::Derate)
            } else {
                None
            },
    {
        match compute_shard_residual(shard, self.mode) {
            Some(res) => {
                if res.vt >= self.gates.derate_from && res.vt < self.gates.stop_from {
                    Some(PilotGateDecision::Derate)
                } else {
                    None
                }
            },
            None => None,
        }
    }

    /// The approve gate on one shard.
    pub fn gate_approve(&self, shard: &Shard) -> (d: Option<PilotGateDecision>)
        ensures
            d == if self@.approve_gate(*shard) {
                Some(PilotGateDecision::Approve)
            } else {
                None
            },
    {
        if !self.has_all_corridors(shard) {
            return None;
        }
        let res = match compute_shard_residual(shard, self.mode) {
            Some(r) => r,
            None => {
                return None;
            },
        };
        if res.vt >= self.gates.derate_from {
            return None;
        }
        if !shard.ker.is_well_formed() {
            return None;
        }
        if shard.ker.ecoimpact_value < self.gates.eco_impact_min {
            return None;
        }
        if shard.ker.risk_of_harm > self.gates.risk_of_harm_max {
            return None;
        }
        Some(PilotGateDecision::Approve)
    }

    /// Governs a chain and says why: the position of the first failing
    /// link, or which of the three gates fired on the last shard.
    pub fn audit(&self, chain: &[Shard]) -> (found: Option<GateFinding>)
        ensures
            self@.is_finding(chain@, found),
    {
        if chain.len() == 0 {
            return None;
        }
        let mut i: usize = 0;
        while i + 1 < chain.len()
            invariant
                0 <= i < chain.len(),
                forall|k: int| 0 <= k < i ==> #[trigger] self@.link_at(chain@, k),
            decreases chain.len() - i,
        {
            let prev = &chain[i];
            let next = &chain[i + 1];
            if !self.safestep(prev, next) || !self.has_all_corridors(prev)
                || !self.has_all_corridors(next) {
                assert(!self@.link_at(chain@, i as int));
                return Some(
                    GateFinding {
                        decision: PilotGateDecision::Stop,
                        reason: GateReason::BrokenLink(i),
                    },
                );
            }
            assert(self@.link_at(chain@, i as int));
            i = i + 1;
        }
        assert(self@.all_links_hold(chain@));
        let last = &chain[chain.len() - 1];
        if self.gate_stop(last).is_some() {
            return Some(
                GateFinding {
                    decision: PilotGateDecision::Stop,
                    reason: GateReason::ResidualAtStop,
                },
            );
        }
        if self.gate_derate(last).is_some() {
            return Some(
                GateFinding {
                    decision: PilotGateDecision::Derate,
                    reason: GateReason::ResidualInDerateBand,
                },
            );
        }
        if self.gate_approve(last).is_some() {
            return Some(
                GateFinding {
                    decision: PilotGateDecision::Approve,
                    reason: GateReason::AllConditionsMet,
                },
            );
        }
        None
    }

    /// Governs a chain: every link must hold, then the gates decide on the
    /// last shard, stop before derate before approve. The empty chain gets
    /// no decision, and neither does a chain whose last shard fires no gate.
    pub fn govern(&self, chain: &[Shard]) -> (d: Option<PilotGateDecision>)
        ensures
            d == self@.verdict(chain@),
    {
        match self.audit(chain) {
            Some(found) => Some(found.decision),
            None => None,
        }
    }
}

} // verus!
