//! Voxels of the planning grid with the envelopes of the life in them, and
//! the step rule in its flag form.

use vstd::prelude::*;
use crate::decision::{
    step_outcome, CorridorDecision as Verdict, InteriorRule, SafeStepDecider, StepOutcome,
};
use crate::residual::{Residual, RiskCoord};

verus! {

/// A step decision as flags: whether to throttle, whether to halt, and why.
#[derive(Debug, PartialEq, Eq)]
pub struct CorridorDecision {
    /// The step must at least be throttled.
    pub derate: bool,
    /// The step must halt.
    pub stop: bool,
    /// The rule that fired, in words.
    pub reason: String,
}

impl Clone for CorridorDecision {
    fn clone(&self) -> (r: Self)
        ensures
            r == *self,
    {
        CorridorDecision { derate: self.derate, stop: self.stop, reason: self.reason.clone() }
    }
}

impl CorridorDecision {
    /// Whether the flags say what `outcome` says: halting implies
    /// throttling, and the reason is the outcome's reason in words.
    pub open spec fn reflects(&self, outcome: StepOutcome) -> bool {
        &&& self.stop == (outcome.decision == Verdict::Stop)
        &&& self.derate == (outcome.decision != Verdict::Okay)
        &&& self.reason@ == outcome.reason.text()
    }

    /// The flag form of an outcome.
    pub fn from_outcome(outcome: StepOutcome) -> (d: CorridorDecision)
        ensures
            d.reflects(outcome),
    {
        CorridorDecision {
            derate: outcome.decision.derate(),
            stop: outcome.decision.stop(),
            reason: outcome.reason.message(),
        }
    }
}

/// Judges the step from `prev` to `next` without a safe interior: a hard
/// breach halts, an increased residual throttles, anything else passes.
pub fn enforce_safe_step(prev: &Residual, next: &Residual) -> (d: CorridorDecision)
    ensures
        d.reflects(
            step_outcome(InteriorRule::Disabled, prev.vt as int, next.vt as int, next.coords@),
        ),
{
    let decider = SafeStepDecider { interior: InteriorRule::Disabled };
    CorridorDecision::from_outcome(decider.evaluate(prev, next))
}

/// The envelope of a honeybee colony.
#[derive(Debug, PartialEq, Eq)]
pub struct BeeEnvelope {
    /// The habitat score.
    pub hb_score: i64,
    /// The heat coordinate.
    pub r_heat: RiskCoord,
    /// The electromagnetic coordinate.
    pub r_emf: RiskCoord,
    /// The chemical coordinate.
    pub r_chem: RiskCoord,
}

/// The envelope of aquatic life.
#[derive(Debug, PartialEq, Eq)]
pub struct AquaticEnvelope {
    /// The temperature coordinate.
    pub r_temp: RiskCoord,
    /// The dissolved-oxygen coordinate.
    pub r_do: RiskCoord,
    /// The nutrient coordinate.
    pub r_nutrient: RiskCoord,
    /// The toxicity coordinate.
    pub r_toxic: RiskCoord,
}

/// The envelope of humans.
#[derive(Debug, PartialEq, Eq)]
pub struct HumanEnvelope {
    /// The heat-stress coordinate.
    pub r_wbgt: RiskCoord,
    /// The particulate coordinate.
    pub r_pm: RiskCoord,
    /// The noise coordinate.
    pub r_noise: RiskCoord,
}

/// Which envelopes a voxel must respect.
#[derive(Debug, PartialEq, Eq)]
pub enum LifeEnvelope {
    /// The envelope of a honeybee colony.
    BeeEnvelope(BeeEnvelope),
    /// The envelope of aquatic life.
    AquaticEnvelope(AquaticEnvelope),
    /// The envelope of humans.
    HumanEnvelope(HumanEnvelope),
    /// Several envelopes at once.
    Multi(Vec<LifeEnvelope>),
}

/// The ecological state of a voxel.
#[derive(Debug, PartialEq, Eq)]
pub struct VoxelState {
    /// The disturbance index.
    pub tdi: i64,
    /// The biotic index.
    pub mbi: i64,
    /// The eco-benefit score.
    pub eco_impact_score: i64,
    /// The radiation index.
    pub radiation_index: i64,
    /// The disturbance coordinate.
    pub r_tdi: RiskCoord,
    /// The biotic coordinate.
    pub r_mbi: RiskCoord,
    /// The eco-benefit coordinate.
    pub r_eco: RiskCoord,
    /// The radiation coordinate.
    pub r_rad: RiskCoord,
    /// The bee-wellness coordinate.
    pub r_bee: RiskCoord,
    /// The marine coordinate.
    pub r_marine: RiskCoord,
    /// The human coordinate.
    pub r_human: RiskCoord,
    /// The envelopes to respect.
    pub life_envelope: LifeEnvelope,
}

/// A voxel of the planning grid: a place, a time and a state.
#[derive(Debug, PartialEq, Eq)]
pub struct Voxel5D {
    /// The position along the first axis, in metres.
    pub x_m: i64,
    /// The position along the second axis, in metres.
    pub y_m: i64,
    /// The position along the third axis, in metres.
    pub z_m: i64,
    /// The mission time in milliseconds.
    pub t_ms: u64,
    /// The state of the voxel.
    pub state: VoxelState,
}

} // verus!
