//! The node kernel: what one node of the swarm may do in one tick.

use vstd::prelude::*;
use crate::bands::CorridorBands;
use crate::decision::{
    step_outcome, CorridorDecision as Verdict, InteriorRule, SafeStepDecider, StepOutcome,
    StepReason,
};
use crate::fixed::{clamp01, clamped_to_unit, ONE};
use crate::lifeforce::CorridorDecision;
use crate::residual::{aggregated, AggregationMode, Residual, ResidualView};
use crate::voxel::{Lifeforce5DVoxel, SafetyEnvelope, VoxelBands};

verus! {

/// The state of one node.
#[derive(Debug, PartialEq, Eq)]
pub struct NodeState {
    /// The node's number.
    pub node_id: u32,
    /// The duty cycle, between 0 and 1.
    pub duty_cycle: i64,
    /// The voxel the node is in.
    pub voxel: Lifeforce5DVoxel,
    /// The residual last computed for the node.
    pub residual: Residual,
}

impl Clone for NodeState {
    fn clone(&self) -> (r: Self)
        ensures
            r.node_id == self.node_id,
            r.duty_cycle == self.duty_cycle,
            r.voxel == self.voxel,
            r.residual@ == self.residual@,
    {
        NodeState {
            node_id: self.node_id,
            duty_cycle: self.duty_cycle,
            voxel: self.voxel,
            residual: self.residual.clone(),
        }
    }
}

/// The efficiencies of the kernel.
#[derive(Copy, Debug, PartialEq, Eq, Structural)]
pub struct KernelParams {
    /// The mass efficiency.
    pub eta_mass: i64,
    /// The ecological efficiency.
    pub eta_eco: i64,
    /// The pollinator efficiency.
    pub eta_bee: i64,
}

impl Clone for KernelParams {
    fn clone(&self) -> (r: Self)
        ensures
            r == *self,
    {
        *self
    }
}

/// What the kernel grants a node.
#[derive(Debug, PartialEq, Eq)]
pub struct KernelDecision {
    /// The duty the node may apply.
    pub safe_duty: i64,
    /// Whether the node may act at all.
    pub permitted: bool,
    /// The step decision behind the grant.
    pub decision: CorridorDecision,
}

/// The outcome of a node's step: the residual of the proposed state is
/// recomputed from its coordinates and judged against the previous one; a
/// proposed state whose coordinates aggregate to nothing is stopped as
/// malformed.
pub open spec fn node_outcome(prev: ResidualView, proposed: ResidualView) -> StepOutcome {
    match aggregated(proposed.coords, AggregationMode::Linear) {
        Some(v) => step_outcome(InteriorRule::PerBand, prev.vt, v, proposed.coords),
        None => StepOutcome { decision: Verdict::Stop, reason: StepReason::MalformedInput },
    }
}

/// The duty that a decision leaves of a proposed duty: nothing on `Stop`,
/// half on `Derate`, all of it on `Okay`; the proposed duty is limited to the
/// unit interval first.
pub open spec fn granted_duty(decision: Verdict, proposed_duty: int) -> int {
    match decision {
        Verdict::Stop => 0,
        Verdict::Derate => clamped_to_unit(proposed_duty) / 2,
        Verdict::Okay => clamped_to_unit(proposed_duty),
    }
}

/// Judges the state proposed for a node against the previous one and grants
/// a duty: none on `Stop`, half the proposed one on `Derate`, the proposed
/// one on `Okay`.
pub fn evaluate_node(prev: &NodeState, proposed: NodeState, params: &KernelParams) -> (out:
    KernelDecision)
    ensures
        out.decision.reflects(node_outcome(prev.residual@, proposed.residual@)),
        out.permitted == !out.decision.stop,
        out.safe_duty == granted_duty(
            node_outcome(prev.residual@, proposed.residual@).decision,
            proposed.duty_cycle as int,
        ),
        0 <= out.safe_duty <= ONE,
{
    let duty = clamp01(proposed.duty_cycle);
    let mut next_res = proposed.residual;
    let outcome = if next_res.recompute(AggregationMode::Linear) {
        SafeStepDecider::per_band().evaluate(&prev.residual, &next_res)
    } else {
        StepOutcome { decision: Verdict::Stop, reason: StepReason::MalformedInput }
    };
    let safe_duty = match outcome.decision {
        Verdict::Stop => 0,
        Verdict::Derate => duty / 2,
        Verdict::Okay => duty,
    };
    let dec = CorridorDecision::from_outcome(outcome);
    KernelDecision { safe_duty, permitted: !dec.stop, decision: dec }
}

/// What the sensors of a node read in one tick.
#[derive(Copy, Debug, PartialEq, Eq, Structural)]
pub struct SensorReading {
    /// The disturbance index.
    pub tdi: i64,
    /// The biotic index.
    pub mbi: i64,
    /// The stress index.
    pub eis: i64,
    /// The radiation index.
    pub rad: i64,
}

impl Clone for SensorReading {
    fn clone(&self) -> (r: Self)
        ensures
            r == *self,
    {
        *self
    }
}

/// The bands of the four indices a node reads.
#[derive(Debug, PartialEq, Eq)]
pub struct NodeBands {
    /// The band of the disturbance index.
    pub tdi: CorridorBands,
    /// The band of the biotic index.
    pub mbi: CorridorBands,
    /// The band of the stress index.
    pub eis: CorridorBands,
    /// The band of the radiation index.
    pub rad: CorridorBands,
}

impl View for NodeBands {
    type V = VoxelBands;

    open spec fn view(&self) -> VoxelBands {
        VoxelBands { tdi: self.tdi, mbi: self.mbi, eis: self.eis, rad: self.rad }
    }
}

impl NodeBands {
    /// The envelope that ends at the safe thresholds of the bands and admits
    /// a hundred ticks of residence.
    pub fn envelope(&self) -> (env: SafetyEnvelope)
        ensures
            env == node_envelope(self@),
    {
        SafetyEnvelope {
            lifeform: crate::voxel::LifeForm::Unspecified,
            max_tdi: self.tdi.safe,
            min_mbi: self.mbi.safe,
            max_eis: self.eis.safe,
            max_rad_index: self.rad.safe,
            max_residence: 100,
        }
    }
}

/// The envelope that ends at the safe thresholds of the bands and admits a
/// hundred ticks of residence.
pub open spec fn node_envelope(bands: VoxelBands) -> SafetyEnvelope {
    SafetyEnvelope {
        lifeform: crate::voxel::LifeForm::Unspecified,
        max_tdi: bands.tdi.safe,
        min_mbi: bands.mbi.safe,
        max_eis: bands.eis.safe,
        max_rad_index: bands.rad.safe,
        max_residence: 100,
    }
}

/// The voxel of a node at rest: at the origin, undisturbed, fully biotic,
/// never resided in.
pub open spec fn resting_voxel(bands: VoxelBands) -> Lifeforce5DVoxel {
    Lifeforce5DVoxel {
        x: 0,
        y: 0,
        z: 0,
        tdi: 0,
        mbi: ONE,
        eis: 0,
        rad_index: 0,
        residence: 0,
        envelope: node_envelope(bands),
    }
}

/// The state a node starts from: number 0, no duty, the resting voxel and
/// its risk state. Nothing is returned where the bands give the resting
/// voxel no risk state.
pub fn initial_node_state(bands: &NodeBands) -> (s: Option<NodeState>)
    ensures
        s is Some <==> resting_voxel(bands@).risk_state(bands@) is Some,
        s matches Some(state) ==> {
            &&& state.node_id == 0
            &&& state.duty_cycle == 0
            &&& state.voxel == resting_voxel(bands@)
            &&& Some(state.residual@) == resting_voxel(bands@).risk_state(bands@)
        },
{
    let voxel = Lifeforce5DVoxel {
        x: 0,
        y: 0,
        z: 0,
        tdi: 0,
        mbi: ONE,
        eis: 0,
        rad_index: 0,
        residence: 0,
        envelope: bands.envelope(),
    };
    match voxel.to_risk_coords(&bands.tdi, &bands.mbi, &bands.eis, &bands.rad) {
        Some(residual) => Some(NodeState { node_id: 0, duty_cycle: 0, voxel, residual }),
        None => None,
    }
}

/// The voxel of a node after one more tick with a new reading: the place
/// stays, the indices are the ones read, and the residence grows by one
/// unless it is at its largest value already.
pub open spec fn voxel_after(prev: Lifeforce5DVoxel, reading: SensorReading, bands: VoxelBands)
    -> Lifeforce5DVoxel {
    Lifeforce5DVoxel {
        x: prev.x,
        y: prev.y,
        z: prev.z,
        tdi: reading.tdi,
        mbi: reading.mbi,
        eis: reading.eis,
        rad_index: reading.rad,
        residence: if prev.residence < u32::MAX {
            (prev.residence + 1) as u32
        } else {
            u32::MAX
        },
        envelope: node_envelope(bands),
    }
}

/// What one tick makes of a reading.
pub struct TickResult {
    /// The state the node is in after the tick.
    pub next_state: NodeState,
    /// The grant of the tick; its duty is the actuation.
    pub decision: KernelDecision,
}

/// One tick of the safety loop, as a function from the previous state and a
/// sensor reading to the next state and the actuation.
///
/// The reading is put into the node's voxel and normalised under the bands.
/// Where that gives a risk state, the state proposed is the previous one
/// with the new voxel and residual; it is judged by `evaluate_node`, and the
/// next state is the proposed one with the granted duty. Where the reading
/// gives no risk state the tick fails closed: the node is stopped with no
/// duty and keeps its previous residual.
pub fn safety_tick(
    prev_state: &NodeState,
    reading: SensorReading,
    params: &KernelParams,
    bands: &NodeBands,
) -> (out: TickResult)
    ensures
        out.next_state.node_id == prev_state.node_id,
        out.next_state.voxel == voxel_after(prev_state.voxel, reading, bands@),
        out.next_state.duty_cycle == out.decision.safe_duty,
        out.decision.permitted == !out.decision.decision.stop,
        0 <= out.decision.safe_duty <= ONE,
        match voxel_after(prev_state.voxel, reading, bands@).risk_state(bands@) {
            Some(state) => {
                &&& out.next_state.residual@ == state
                &&& out.decision.decision.reflects(node_outcome(prev_state.residual@, state))
                &&& out.decision.safe_duty == granted_duty(
                    node_outcome(prev_state.residual@, state).decision,
                    prev_state.duty_cycle as int,
                )
            },
            None => {
                &&& out.next_state.residual@ == prev_state.residual@
                &&& out.decision.decision.reflects(
                    StepOutcome { decision: Verdict::Stop, reason: StepReason::MalformedInput },
                )
                &&& out.decision.safe_duty == 0
            },
        },
{
    let residence = if prev_state.voxel.residence < u32::MAX {
        prev_state.voxel.residence + 1
    } else {
        u32::MAX
    };
    let voxel = Lifeforce5DVoxel {
        x: prev_state.voxel.x,
        y: prev_state.voxel.y,
        z: prev_state.voxel.z,
        tdi: reading.tdi,
        mbi: reading.mbi,
        eis: reading.eis,
        rad_index: reading.rad,
        residence,
        envelope: bands.envelope(),
    };
    match voxel.to_risk_coords(&bands.tdi, &bands.mbi, &bands.eis, &bands.rad) {
        Some(residual) => {
            let kept = residual.clone();
            let proposed = NodeState {
                node_id: prev_state.node_id,
                duty_cycle: prev_state.duty_cycle,
                voxel,
                residual,
            };
            let decision = evaluate_node(prev_state, proposed, params);
            let next_state = NodeState {
                node_id: prev_state.node_id,
                duty_cycle: decision.safe_duty,
                voxel,
                residual: kept,
            };
            TickResult { next_state, decision }
        },
        None => {
            let outcome = StepOutcome {
                decision: Verdict::Stop,
                reason: StepReason::MalformedInput,
            };
            let dec = CorridorDecision::from_outcome(outcome);
            let decision = KernelDecision { safe_duty: 0, permitted: !dec.stop, decision: dec };
            let next_state = NodeState {
                node_id: prev_state.node_id,
                duty_cycle: 0,
                voxel,
                residual: prev_state.residual.clone(),
            };
            TickResult { next_state, decision }
        },
    }
}

} // verus!
