//! Edge devices: a controller proposes an action, the kernel of its domain
//! judges it, and only an accepted action is handed on.

use vstd::prelude::*;
use crate::composite::{AquaticState, CyboquaticSafetyKernel, FlowControl};
use crate::decision::CorridorDecision;
use crate::residual::{Residual, ResidualView};

verus! {

/// A command in the form of a legacy pump controller.
#[derive(Copy, Debug, PartialEq, Eq, Structural)]
pub struct LegacyCommand {
    /// The speed asked for, in revolutions per minute.
    pub rpm: u16,
}

impl Clone for LegacyCommand {
    fn clone(&self) -> (r: Self)
        ensures
            r == *self,
    {
        *self
    }
}

/// Turns legacy commands into flow intents.
pub trait LegacyAdapter {
    /// The flow intent of a legacy command.
    fn to_safe_intent(&self, legacy: &LegacyCommand) -> FlowControl;
}

/// Why a proposed action was not handed on.
#[derive(Copy, Debug, PartialEq, Eq, Structural)]
pub enum StepRefusal {
    /// The kernel asks for throttling.
    Derate,
    /// The kernel stops the action.
    Stop,
}

impl Clone for StepRefusal {
    fn clone(&self) -> (r: Self)
        ensures
            r == *self,
    {
        *self
    }
}

impl StepRefusal {
    /// The refusal in a word: `derate` or `stop`.
    pub fn message(&self) -> (s: &'static str)
        ensures
            s@ == match *self {
                StepRefusal::Derate => "derate"@,
                StepRefusal::Stop => "stop"@,
            },
    {
        match self {
            StepRefusal::Derate => "derate",
            StepRefusal::Stop => "stop",
        }
    }
}

/// What becomes of a candidate action once the kernel has judged it: it is
/// handed on with the next residual where the kernel accepts it, and refused
/// otherwise.
pub open spec fn gated(candidate: FlowControl, judged: (CorridorDecision, ResidualView)) -> Result<
    (FlowControl, ResidualView),
    StepRefusal,
> {
    match judged.0 {
        CorridorDecision::Okay => Ok((candidate, judged.1)),
        CorridorDecision::Derate => Err(StepRefusal::Derate),
        CorridorDecision::Stop => Err(StepRefusal::Stop),
    }
}

/// Hands a candidate action on or refuses it, by the decision of the kernel.
pub fn gate_candidate(candidate: FlowControl, decision: CorridorDecision, next_residual: Residual)
    -> (r: Result<(FlowControl, Residual), StepRefusal>)
    ensures
        gated_view(r) == gated(candidate, (decision, next_residual@)),
{
    match decision {
        CorridorDecision::Okay => Ok((candidate, next_residual)),
        CorridorDecision::Derate => Err(StepRefusal::Derate),
        CorridorDecision::Stop => Err(StepRefusal::Stop),
    }
}

/// The plain form of a gated result.
pub open spec fn gated_view(r: Result<(FlowControl, Residual), StepRefusal>) -> Result<
    (FlowControl, ResidualView),
    StepRefusal,
> {
    match r {
        Ok((c, res)) => Ok((c, res@)),
        Err(e) => Err(e),
    }
}

/// A controller that proposes actions and owns the kernel that judges them.
/// Nothing is assumed of an implementation beyond what it states of itself
/// in `has_kernel` and `may_propose`.
pub trait SafeController<K: CyboquaticSafetyKernel> {
    /// Whether `k` is the kernel of the controller. A controller that does
    /// not say admits every kernel.
    open spec fn has_kernel(&self, k: K) -> bool {
        true
    }

    /// Whether the controller may propose `candidate` for a state. A
    /// controller that does not say admits every action.
    open spec fn may_propose(&self, eco_state: AquaticState, candidate: FlowControl) -> bool {
        true
    }

    /// The kernel of the controller.
    fn kernel(&self) -> (k: &K)
        ensures
            self.has_kernel(*k),
    ;

    /// One step of the controller under its kernel: the controller
    /// proposes, its kernel judges the proposal against the previous
    /// residual, and `gate_candidate` hands the proposal on only where the
    /// kernel accepts it. So the result is what that makes of some action
    /// that the controller may propose for the state and of an answer that
    /// a kernel of the controller, as it is after proposing, may give to it.
    fn step_with_safety(&mut self, eco_state: &AquaticState, prev_residual: &Residual) -> (r:
        Result<(FlowControl, Residual), StepRefusal>)
        ensures
            exists|candidate: FlowControl, k: K, answer: (CorridorDecision, ResidualView)|
                {
                    &&& old(self).may_propose(*eco_state, candidate)
                    &&& final(self).has_kernel(k)
                    &&& #[trigger] k.may_answer(*eco_state, candidate, prev_residual@, answer)
                    &&& gated_view(r) == gated(candidate, answer)
                },
    {
        let candidate = self.propose_control(eco_state);
        let kernel = self.kernel();
        let (decision, next_residual) = kernel.check_step(eco_state, &candidate, prev_residual);
        let ghost answer = (decision, next_residual@);
        let r = gate_candidate(candidate, decision, next_residual);
        assert(kernel.may_answer(*eco_state, candidate, prev_residual@, answer));
        r
    }

    /// The action the controller proposes for a state.
    fn propose_control(&mut self, eco_state: &AquaticState) -> (candidate: FlowControl)
        ensures
            old(self).may_propose(*eco_state, candidate),
    ;
}

/// Whether `r` is what comes of one step of a controller: some action that
/// the controller `before` the step may propose for the state, judged
/// against the previous residual by a kernel of the controller `after` the
/// proposal, and handed on or refused by that kernel's decision.
pub open spec fn stepped<K: CyboquaticSafetyKernel, S: SafeController<K>>(
    before: S,
    after: S,
    eco_state: AquaticState,
    prev_residual: ResidualView,
    r: Result<(FlowControl, Residual), StepRefusal>,
) -> bool {
    exists|candidate: FlowControl, k: K, answer: (CorridorDecision, ResidualView)|
        {
            &&& before.may_propose(eco_state, candidate)
            &&& after.has_kernel(k)
            &&& #[trigger] k.may_answer(eco_state, candidate, prev_residual, answer)
            &&& gated_view(r) == gated(candidate, answer)
        }
}

/// An edge node: a controller and an adapter for legacy commands.
pub struct EdgeNode<S, A> {
    /// The controller of the node.
    pub ctrl: S,
    /// The adapter for legacy commands.
    pub adapter: A,
}

impl<S, A: LegacyAdapter> EdgeNode<S, A> {
    /// One tick of the node. The legacy command is read as a flow intent;
    /// what is applied is what comes of one step of the controller: what it
    /// proposes, where its kernel accepts that. The adapter is left as it
    /// was.
    pub fn tick<K: CyboquaticSafetyKernel>(
        &mut self,
        legacy_cmd: &LegacyCommand,
        eco_state: &AquaticState,
        residual: &Residual,
    ) -> (r: Result<(FlowControl, Residual), StepRefusal>) where S: SafeController<K>
        ensures
            final(self).adapter == old(self).adapter,
            stepped(old(self).ctrl, final(self).ctrl, *eco_state, residual@, r),
    {
        let _safe_intent = self.adapter.to_safe_intent(legacy_cmd);
        self.ctrl.step_with_safety(eco_state, residual)
    }
}

} // verus!
