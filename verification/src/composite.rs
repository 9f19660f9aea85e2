//! The composite kernel: two safety domains judge one proposed action, each
//! with its own kernel, and their decisions are merged by dominance.

use vstd::prelude::*;
use crate::bands::{all_bands_well_formed, CorridorBands};
use crate::decision::{
    step_outcome, CorridorDecision, InteriorRule, SafeStepDecider, StepOutcome, StepReason,
};
use crate::residual::{
    aggregate, aggregated, coord_under, AggregationMode, Residual, ResidualView, RiskCoord,
};

verus! {

/// What a pollinator kernel reads of the environment.
#[derive(Copy, Debug, PartialEq, Eq, Structural)]
pub struct BeeEnvInputs {
    /// The air temperature in degrees Celsius.
    pub temp_c: i64,
    /// The electromagnetic field in milliwatts per square centimetre.
    pub emf_mw_cm2: i64,
    /// The chemical load in milligrams per cubic metre.
    pub chem_mg_m3: i64,
}

impl Clone for BeeEnvInputs {
    fn clone(&self) -> (r: Self)
        ensures
            r == *self,
    {
        *self
    }
}

/// The action proposed to a pollinator habitat.
#[derive(Copy, Debug, PartialEq, Eq, Structural)]
pub struct BeeControl {
    /// The duty of the ventilation, as a fraction.
    pub ventilation_duty: i64,
    /// The duty of the heater, as a fraction.
    pub heater_duty: i64,
}

impl Clone for BeeControl {
    fn clone(&self) -> (r: Self)
        ensures
            r == *self,
    {
        *self
    }
}

/// What an aquatic kernel reads of the water.
#[derive(Copy, Debug, PartialEq, Eq, Structural)]
pub struct AquaticState {
    /// The water temperature in degrees Celsius.
    pub temp_c: i64,
    /// The dissolved oxygen in milligrams per litre.
    pub do_mg_l: i64,
    /// The acidity.
    pub ph: i64,
    /// The turbidity in nephelometric units.
    pub turbidity_ntu: i64,
    /// The health index of the fish.
    pub fish_scalar: i64,
}

impl Clone for AquaticState {
    fn clone(&self) -> (r: Self)
        ensures
            r == *self,
    {
        *self
    }
}

/// The action proposed to an aquatic flow.
#[derive(Copy, Debug, PartialEq, Eq, Structural)]
pub struct FlowControl {
    /// The flow in litres per second.
    pub flow_l_s: i64,
    /// The aeration power in watts.
    pub aeration_power_w: i64,
}

impl Clone for FlowControl {
    fn clone(&self) -> (r: Self)
        ensures
            r == *self,
    {
        *self
    }
}

/// A kernel of the pollinator domain: it judges a proposed action for a
/// state against the previous residual and answers with a decision and the
/// next residual. Nothing is assumed of an implementation beyond what it
/// states of itself in `may_answer`.
pub trait BeeSafetyKernel {
    /// Whether the kernel may give `answer`, a decision and a next residual,
    /// for a state, a proposed action and a previous residual. A kernel that
    /// does not say admits every answer.
    open spec fn may_answer(
        &self,
        eco_state: BeeEnvInputs,
        proposed: BeeControl,
        prev: ResidualView,
        answer: (CorridorDecision, ResidualView),
    ) -> bool {
        true
    }

    /// Judges a proposed action.
    fn check_step(&self, eco_state: &BeeEnvInputs, proposed: &BeeControl, prev: &Residual) -> (out:
        (CorridorDecision, Residual))
        ensures
            self.may_answer(*eco_state, *proposed, prev@, (out.0, out.1@)),
    ;
}

/// A kernel of the aquatic domain: it judges a proposed action for a state
/// against the previous residual and answers with a decision and the next
/// residual. Nothing is assumed of an implementation beyond what it states
/// of itself in `may_answer`.
pub trait CyboquaticSafetyKernel {
    /// Whether the kernel may give `answer`, a decision and a next residual,
    /// for a state, a proposed action and a previous residual. A kernel that
    /// does not say admits every answer.
    open spec fn may_answer(
        &self,
        eco_state: AquaticState,
        proposed: FlowControl,
        prev: ResidualView,
        answer: (CorridorDecision, ResidualView),
    ) -> bool {
        true
    }

    /// Judges a proposed action.
    fn check_step(&self, eco_state: &AquaticState, proposed: &FlowControl, prev: &Residual) -> (out:
        (CorridorDecision, Residual))
        ensures
            self.may_answer(*eco_state, *proposed, prev@, (out.0, out.1@)),
    ;
}

/// The merged decision of the pollinator and the aquatic domain, with the
/// domains that caused it.
#[derive(Copy, Debug, PartialEq, Eq, Structural)]
pub enum CompositeDecision {
    /// Both domains accept the action.
    Okay,
    /// No domain stops the action and the marked ones ask for throttling.
    Derate {
        /// The pollinator domain asks for throttling.
        bee: bool,
        /// The aquatic domain asks for throttling.
        cybo: bool,
    },
    /// The marked domains stop the action.
    Stop {
        /// The pollinator domain stops the action.
        bee: bool,
        /// The aquatic domain stops the action.
        cybo: bool,
    },
}

impl Clone for CompositeDecision {
    fn clone(&self) -> (r: Self)
        ensures
            r == *self,
    {
        *self
    }
}

impl CompositeDecision {
    /// The merge of two domain decisions: `Stop` where either stops, else
    /// `Derate` where either derates, else `Okay`; each annotated with the
    /// domains that decided so.
    pub open spec fn merged(bee: CorridorDecision, cybo: CorridorDecision) -> CompositeDecision {
        if bee == CorridorDecision::Stop || cybo == CorridorDecision::Stop {
            CompositeDecision::Stop {
                bee: bee == CorridorDecision::Stop,
                cybo: cybo == CorridorDecision::Stop,
            }
        } else if bee == CorridorDecision::Derate || cybo == CorridorDecision::Derate {
            CompositeDecision::Derate {
                bee: bee == CorridorDecision::Derate,
                cybo: cybo == CorridorDecision::Derate,
            }
        } else {
            CompositeDecision::Okay
        }
    }

    /// The decision without its annotation.
    pub open spec fn plain(self) -> CorridorDecision {
        match self {
            CompositeDecision::Okay => CorridorDecision::Okay,
            CompositeDecision::Derate { .. } => CorridorDecision::Derate,
            CompositeDecision::Stop { .. } => CorridorDecision::Stop,
        }
    }

    /// Merges the decisions of the two domains.
    pub fn merge(bee: CorridorDecision, cybo: CorridorDecision) -> (d: CompositeDecision)
        ensures
            d == CompositeDecision::merged(bee, cybo),
            d.plain() == bee.dominant(cybo),
            d is Stop <==> bee == CorridorDecision::Stop || cybo == CorridorDecision::Stop,
            d is Okay <==> bee == CorridorDecision::Okay && cybo == CorridorDecision::Okay,
    {
        match (bee, cybo) {
            (CorridorDecision::Okay, CorridorDecision::Okay) => CompositeDecision::Okay,
            (CorridorDecision::Stop, _) | (_, CorridorDecision::Stop) => CompositeDecision::Stop {
                bee: bee.stop(),
                cybo: cybo.stop(),
            },
            _ => CompositeDecision::Derate {
                bee: matches!(bee, CorridorDecision::Derate),
                cybo: matches!(cybo, CorridorDecision::Derate),
            },
        }
    }

    /// The decision without its annotation.
    pub fn decision(&self) -> (d: CorridorDecision)
        ensures
            d == self.plain(),
    {
        match self {
            CompositeDecision::Okay => CorridorDecision::Okay,
            CompositeDecision::Derate { .. } => CorridorDecision::Derate,
            CompositeDecision::Stop { .. } => CorridorDecision::Stop,
        }
    }
}

/// The composite decision is `Stop` exactly when at least one domain stops,
/// and `Okay` exactly when both domains accept; the annotation names the
/// domains that decided.
pub proof fn lemma_composite_dominance(bee: CorridorDecision, cybo: CorridorDecision)
    ensures
        CompositeDecision::merged(bee, cybo) is Stop <==> bee == CorridorDecision::Stop || cybo
            == CorridorDecision::Stop,
        CompositeDecision::merged(bee, cybo) is Okay <==> bee == CorridorDecision::Okay && cybo
            == CorridorDecision::Okay,
        CompositeDecision::merged(bee, cybo).plain() == bee.dominant(cybo),
        CompositeDecision::merged(bee, cybo) matches CompositeDecision::Stop { bee: b, cybo: c }
            ==> b == (bee == CorridorDecision::Stop) && c == (cybo == CorridorDecision::Stop),
        CompositeDecision::merged(bee, cybo) matches CompositeDecision::Derate { bee: b, cybo: c }
            ==> b == (bee == CorridorDecision::Derate) && c == (cybo == CorridorDecision::Derate),
{
}

/// The dominant decision of a list of domain decisions; `Okay` for the empty
/// list.
pub open spec fn dominant_of(decisions: Seq<CorridorDecision>) -> CorridorDecision
    decreases decisions.len(),
{
    if decisions.len() == 0 {
        CorridorDecision::Okay
    } else {
        dominant_of(decisions.drop_last()).dominant(decisions.last())
    }
}

/// Over any number of domains, the merged decision is `Stop` exactly when at
/// least one domain stops, and `Okay` exactly when every domain accepts.
pub proof fn lemma_dominant_of(decisions: Seq<CorridorDecision>)
    ensures
        dominant_of(decisions) == CorridorDecision::Stop <==> exists|i: int|
            0 <= i < decisions.len() && #[trigger] decisions[i] == CorridorDecision::Stop,
        dominant_of(decisions) == CorridorDecision::Okay <==> forall|i: int|
            0 <= i < decisions.len() ==> #[trigger] decisions[i] == CorridorDecision::Okay,
    decreases decisions.len(),
{
    if decisions.len() > 0 {
        let front = decisions.drop_last();
        let last = decisions.len() - 1;
        lemma_dominant_of(front);
        if exists|i: int| 0 <= i < front.len() && #[trigger] front[i] == CorridorDecision::Stop {
            let i = choose|i: int|
                0 <= i < front.len() && #[trigger] front[i] == CorridorDecision::Stop;
            assert(decisions[i] == CorridorDecision::Stop);
        }
        if exists|i: int|
            0 <= i < decisions.len() && #[trigger] decisions[i] == CorridorDecision::Stop {
            let i = choose|i: int|
                0 <= i < decisions.len() && #[trigger] decisions[i] == CorridorDecision::Stop;
            if i < last {
                assert(front[i] == CorridorDecision::Stop);
            }
        }
        if forall|i: int| 0 <= i < decisions.len() ==> #[trigger] decisions[i]
            == CorridorDecision::Okay {
            assert forall|i: int| 0 <= i < front.len() implies #[trigger] front[i]
                == CorridorDecision::Okay by {
                assert(decisions[i] == CorridorDecision::Okay);
            }
            assert(decisions[last] == CorridorDecision::Okay);
        }
        if dominant_of(decisions) == CorridorDecision::Okay {
            assert forall|i: int| 0 <= i < decisions.len() implies #[trigger] decisions[i]
                == CorridorDecision::Okay by {
                if i < last {
                    assert(front[i] == CorridorDecision::Okay);
                }
            }
        }
    }
}

/// Merges the decisions of any number of domains by dominance.
pub fn merge_decisions(decisions: &Vec<CorridorDecision>) -> (d: CorridorDecision)
    ensures
        d == dominant_of(decisions@),
        d == CorridorDecision::Stop <==> exists|i: int|
            0 <= i < decisions.len() && #[trigger] decisions[i] == CorridorDecision::Stop,
        d == CorridorDecision::Okay <==> forall|i: int|
            0 <= i < decisions.len() ==> #[trigger] decisions[i] == CorridorDecision::Okay,
{
    let mut d = CorridorDecision::Okay;
    let mut i: usize = 0;
    while i < decisions.len()
        invariant
            0 <= i <= decisions.len(),
            d == dominant_of(decisions@.take(i as int)),
        decreases decisions.len() - i,
    {
        assert(decisions@.take(i + 1).drop_last() =~= decisions@.take(i as int));
        d = d.max(decisions[i]);
        i = i + 1;
    }
    proof {
        assert(decisions@.take(decisions.len() as int) =~= decisions@);
        lemma_dominant_of(decisions@);
    }
    d
}

/// Two kernels, one per domain, that judge a shared proposed action.
pub struct CompositeKernel<B, C> {
    /// The kernel of the pollinator domain.
    pub bee: B,
    /// The kernel of the aquatic domain.
    pub cybo: C,
}

/// What one step of the composite kernel yields: the merged decision, and
/// for each domain the decision of its kernel and its next residual.
#[derive(Debug, PartialEq, Eq)]
pub struct CompositeStep {
    /// The merged decision.
    pub decision: CompositeDecision,
    /// The decision of the pollinator kernel.
    pub bee_decision: CorridorDecision,
    /// The decision of the aquatic kernel.
    pub cybo_decision: CorridorDecision,
    /// The next residual of the pollinator domain.
    pub bee: Residual,
    /// The next residual of the aquatic domain.
    pub cybo: Residual,
}

impl CompositeStep {
    /// The residual that stands for the step where a single one is needed:
    /// by convention the one of the aquatic domain.
    pub fn representative(&self) -> (r: &Residual)
        ensures
            *r == self.cybo,
    {
        &self.cybo
    }
}

impl<B, C> CompositeKernel<B, C> where B: BeeSafetyKernel, C: CyboquaticSafetyKernel {
    /// Judges one step in both domains. Each kernel judges its own state
    /// against the previous residual of its own domain; the residuals are
    /// never merged, only the decisions are, by dominance. The decision and
    /// the residual of each domain are an answer that its kernel may give,
    /// and the merged decision is the merge of the two decisions: `Stop`
    /// exactly when one of them stops, `Okay` exactly when both accept.
    pub fn step(
        &self,
        bee_state: &BeeEnvInputs,
        bee_ctl: &BeeControl,
        aquatic_state: &AquaticState,
        flow_ctl: &FlowControl,
        prev_bee: &Residual,
        prev_cybo: &Residual,
    ) -> (out: CompositeStep)
        ensures
            self.bee.may_answer(*bee_state, *bee_ctl, prev_bee@, (out.bee_decision, out.bee@)),
            self.cybo.may_answer(
                *aquatic_state,
                *flow_ctl,
                prev_cybo@,
                (out.cybo_decision, out.cybo@),
            ),
            out.decision == CompositeDecision::merged(out.bee_decision, out.cybo_decision),
            out.decision is Stop <==> out.bee_decision == CorridorDecision::Stop
                || out.cybo_decision == CorridorDecision::Stop,
            out.decision is Okay <==> out.bee_decision == CorridorDecision::Okay
                && out.cybo_decision == CorridorDecision::Okay,
    {
        let (d_bee, res_bee) = self.bee.check_step(bee_state, bee_ctl, prev_bee);
        let (d_cyb, res_cyb) = self.cybo.check_step(aquatic_state, flow_ctl, prev_cybo);
        let decision = CompositeDecision::merge(d_bee, d_cyb);
        CompositeStep {
            decision,
            bee_decision: d_bee,
            cybo_decision: d_cyb,
            bee: res_bee,
            cybo: res_cyb,
        }
    }
}

/// The coordinates of raw values under the bands at the same positions.
pub open spec fn banded_coords(bands: Seq<CorridorBands>, raw: Seq<i64>) -> Seq<RiskCoord> {
    Seq::new(bands.len(), |i: int| coord_under(bands[i], raw[i] as int))
}

/// The outcome that stops a step on malformed input.
pub open spec fn malformed() -> StepOutcome {
    StepOutcome { decision: CorridorDecision::Stop, reason: StepReason::MalformedInput }
}

/// What a banded kernel finds: `Stop` on malformed input, with the residual
/// unchanged, where the number of raw values differs from the number of
/// bands, a band has a defect, or the residual cannot be represented;
/// otherwise the outcome of the step from the previous residual to the one
/// the raw values aggregate to, together with that residual.
pub open spec fn banded_outcome(
    bands: Seq<CorridorBands>,
    rule: InteriorRule,
    mode: AggregationMode,
    raw: Seq<i64>,
    prev: ResidualView,
) -> (StepOutcome, ResidualView) {
    if raw.len() != bands.len() || !all_bands_well_formed(bands) {
        (malformed(), prev)
    } else {
        let coords = banded_coords(bands, raw);
        match aggregated(coords, mode) {
            None => (malformed(), prev),
            Some(v) => (step_outcome(rule, prev.vt, v, coords), ResidualView { vt: v, coords }),
        }
    }
}

/// What a banded kernel answers: the decision of what it finds, and the
/// next residual.
pub open spec fn banded_verdict(
    bands: Seq<CorridorBands>,
    rule: InteriorRule,
    mode: AggregationMode,
    raw: Seq<i64>,
    prev: ResidualView,
) -> (CorridorDecision, ResidualView) {
    let found = banded_outcome(bands, rule, mode, raw, prev);
    (found.0.decision, found.1)
}

/// A kernel that is nothing but configuration: one band per raw value, a
/// decider and an aggregation mode.
#[derive(Debug, PartialEq, Eq)]
pub struct BandedKernel {
    /// The bands, one per raw value and in the same order.
    pub bands: Vec<CorridorBands>,
    /// The decider of the domain.
    pub decider: SafeStepDecider,
    /// How coordinates enter the residual.
    pub mode: AggregationMode,
}

impl BandedKernel {
    /// Normalises the raw values, aggregates them and judges the step from
    /// `prev`, naming the rule that fired. Malformed input fails closed:
    /// `Stop`, with the residual left as it was.
    pub fn evaluate(&self, raw: &Vec<i64>, prev: &Residual) -> (out: (StepOutcome, Residual))
        ensures
            (out.0, out.1@) == banded_outcome(
                self.bands@,
                self.decider.interior,
                self.mode,
                raw@,
                prev@,
            ),
    {
        let stopped = StepOutcome {
            decision: CorridorDecision::Stop,
            reason: StepReason::MalformedInput,
        };
        if raw.len() != self.bands.len() {
            return (stopped, prev.clone());
        }
        let mut coords: Vec<RiskCoord> = Vec::new();
        let mut i: usize = 0;
        while i < self.bands.len()
            invariant
                0 <= i <= self.bands.len(),
                raw.len() == self.bands.len(),
                stopped == malformed(),
                all_bands_well_formed(self.bands@.take(i as int)),
                coords@ == banded_coords(self.bands@, raw@).take(i as int),
            decreases self.bands.len() - i,
        {
            match RiskCoord::from_raw(raw[i], &self.bands[i]) {
                Err(_) => {
                    assert(!self.bands@[i as int].well_formed());
                    return (stopped, prev.clone());
                },
                Ok(c) => {
                    proof {
                        assert(c == banded_coords(self.bands@, raw@)[i as int]);
                        assert(banded_coords(self.bands@, raw@).take(i + 1) =~= banded_coords(
                            self.bands@,
                            raw@,
                        ).take(i as int).push(c));
                        assert forall|j: int| 0 <= j < i + 1 implies (#[trigger] self.bands@.take(
                            i + 1,
                        )[j]).well_formed() by {
                            if j < i {
                                assert(self.bands@.take(i as int)[j].well_formed());
                            }
                        }
                    }
                    coords.push(c);
                },
            }
            i = i + 1;
        }
        proof {
            assert(self.bands@.take(self.bands.len() as int) =~= self.bands@);
            assert(banded_coords(self.bands@, raw@).take(self.bands.len() as int)
                =~= banded_coords(self.bands@, raw@));
        }
        match aggregate(coords, self.mode) {
            None => (stopped, prev.clone()),
            Some(next) => {
                let found = self.decider.evaluate(prev, &next);
                (found, next)
            },
        }
    }

    /// Normalises the raw values, aggregates them and judges the step from
    /// `prev`. Malformed input fails closed: `Stop`, with the residual left
    /// as it was.
    pub fn check(&self, raw: &Vec<i64>, prev: &Residual) -> (out: (CorridorDecision, Residual))
        ensures
            (out.0, out.1@) == banded_verdict(
                self.bands@,
                self.decider.interior,
                self.mode,
                raw@,
                prev@,
            ),
    {
        let (found, next) = self.evaluate(raw, prev);
        (found.decision, next)
    }
}

/// The raw values a banded kernel reads of a pollinator state, in the order
/// of its bands: temperature, electromagnetic field, chemical load.
pub open spec fn bee_raw(s: BeeEnvInputs) -> Seq<i64> {
    seq![s.temp_c, s.emf_mw_cm2, s.chem_mg_m3]
}

/// The raw values a banded kernel reads of an aquatic state, in the order of
/// its bands: temperature, dissolved oxygen, acidity, turbidity, fish health.
pub open spec fn aquatic_raw(s: AquaticState) -> Seq<i64> {
    seq![s.temp_c, s.do_mg_l, s.ph, s.turbidity_ntu, s.fish_scalar]
}

impl BandedKernel {
    /// Judges a pollinator state: its temperature, electromagnetic field
    /// and chemical load are the raw values of the three bands.
    pub fn check_bee(&self, eco_state: &BeeEnvInputs, prev: &Residual) -> (out: (
        CorridorDecision,
        Residual,
    ))
        ensures
            (out.0, out.1@) == banded_verdict(
                self.bands@,
                self.decider.interior,
                self.mode,
                bee_raw(*eco_state),
                prev@,
            ),
    {
        let mut raw: Vec<i64> = Vec::new();
        raw.push(eco_state.temp_c);
        raw.push(eco_state.emf_mw_cm2);
        raw.push(eco_state.chem_mg_m3);
        assert(raw@ =~= bee_raw(*eco_state));
        self.check(&raw, prev)
    }

    /// Judges an aquatic state: its temperature, dissolved oxygen, acidity,
    /// turbidity and fish health are the raw values of the five bands.
    pub fn check_aquatic(&self, eco_state: &AquaticState, prev: &Residual) -> (out: (
        CorridorDecision,
        Residual,
    ))
        ensures
            (out.0, out.1@) == banded_verdict(
                self.bands@,
                self.decider.interior,
                self.mode,
                aquatic_raw(*eco_state),
                prev@,
            ),
    {
        let mut raw: Vec<i64> = Vec::new();
        raw.push(eco_state.temp_c);
        raw.push(eco_state.do_mg_l);
        raw.push(eco_state.ph);
        raw.push(eco_state.turbidity_ntu);
        raw.push(eco_state.fish_scalar);
        assert(raw@ =~= aquatic_raw(*eco_state));
        self.check(&raw, prev)
    }
}

impl BeeSafetyKernel for BandedKernel {
    fn check_step(&self, eco_state: &BeeEnvInputs, proposed: &BeeControl, prev: &Residual) -> (
        CorridorDecision,
        Residual,
    ) {
        self.check_bee(eco_state, prev)
    }

    /// A banded kernel gives one answer only: the verdict on the three raw
    /// values of the state. The proposed action does not enter.
    open spec fn may_answer(
        &self,
        eco_state: BeeEnvInputs,
        proposed: BeeControl,
        prev: ResidualView,
        answer: (CorridorDecision, ResidualView),
    ) -> bool {
        answer == banded_verdict(
            self.bands@,
            self.decider.interior,
            self.mode,
            bee_raw(eco_state),
            prev,
        )
    }
}

impl CyboquaticSafetyKernel for BandedKernel {
    fn check_step(&self, eco_state: &AquaticState, proposed: &FlowControl, prev: &Residual) -> (
        CorridorDecision,
        Residual,
    ) {
        self.check_aquatic(eco_state, prev)
    }

    /// A banded kernel gives one answer only: the verdict on the five raw
    /// values of the state. The proposed action does not enter.
    open spec fn may_answer(
        &self,
        eco_state: AquaticState,
        proposed: FlowControl,
        prev: ResidualView,
        answer: (CorridorDecision, ResidualView),
    ) -> bool {
        answer == banded_verdict(
            self.bands@,
            self.decider.interior,
            self.mode,
            aquatic_raw(eco_state),
            prev,
        )
    }
}

/// The input of one domain to a composite step: its kernel, the raw values
/// predicted under the proposed action, and the previous residual of the
/// domain.
#[derive(Debug, PartialEq, Eq)]
pub struct DomainInput {
    /// The kernel of the domain.
    pub kernel: BandedKernel,
    /// The raw values, one per band of the kernel.
    pub raw: Vec<i64>,
    /// The previous residual of the domain.
    pub prev: Residual,
}

impl DomainInput {
    /// What the domain's kernel answers to the input.
    pub open spec fn verdict(&self) -> (CorridorDecision, ResidualView) {
        banded_verdict(
            self.kernel.bands@,
            self.kernel.decider.interior,
            self.kernel.mode,
            self.raw@,
            self.prev@,
        )
    }
}

/// The decisions of the domains, in the order of the inputs.
pub open spec fn domain_decisions(domains: Seq<DomainInput>) -> Seq<CorridorDecision> {
    Seq::new(domains.len(), |i: int| domains[i].verdict().0)
}

/// The next residuals of the domains, in the order of the inputs.
pub open spec fn domain_residuals(domains: Seq<DomainInput>) -> Seq<ResidualView> {
    Seq::new(domains.len(), |i: int| domains[i].verdict().1)
}

/// The next residuals as plain values.
pub open spec fn residual_views(residuals: Seq<Residual>) -> Seq<ResidualView> {
    Seq::new(residuals.len(), |i: int| residuals[i]@)
}

/// What a composite step over any number of domains yields.
#[derive(Debug, PartialEq, Eq)]
pub struct CompositeOutcome {
    /// The merged decision.
    pub decision: CorridorDecision,
    /// The decision of each domain; the domains that decided as the merged
    /// decision does are the ones that caused it.
    pub decisions: Vec<CorridorDecision>,
    /// The next residual of each domain.
    pub residuals: Vec<Residual>,
}

/// Judges one proposed action in every domain and merges the decisions by
/// dominance. Each domain is judged by its own kernel against its own
/// previous residual; the merged decision is `Stop` exactly when some domain
/// stops and `Okay` exactly when every domain accepts.
pub fn composite_step(domains: &Vec<DomainInput>) -> (out: CompositeOutcome)
    ensures
        out.decisions@ == domain_decisions(domains@),
        residual_views(out.residuals@) == domain_residuals(domains@),
        out.decision == dominant_of(out.decisions@),
        out.decision == CorridorDecision::Stop <==> exists|i: int|
            0 <= i < domains.len() && (#[trigger] domains[i]).verdict().0 == CorridorDecision::Stop,
        out.decision == CorridorDecision::Okay <==> forall|i: int|
            0 <= i < domains.len() ==> (#[trigger] domains[i]).verdict().0
                == CorridorDecision::Okay,
{
    let mut decisions: Vec<CorridorDecision> = Vec::new();
    let mut residuals: Vec<Residual> = Vec::new();
    let mut i: usize = 0;
    while i < domains.len()
        invariant
            0 <= i <= domains.len(),
            decisions@ == domain_decisions(domains@).take(i as int),
            residual_views(residuals@) == domain_residuals(domains@).take(i as int),
        decreases domains.len() - i,
    {
        let d = &domains[i];
        let (decision, next) = d.kernel.check(&d.raw, &d.prev);
        proof {
            assert(domain_decisions(domains@).take(i + 1) =~= domain_decisions(domains@).take(
                i as int,
            ).push(decision));
            assert(residual_views(residuals@.push(next)) =~= residual_views(residuals@).push(
                next@,
            ));
            assert(domain_residuals(domains@).take(i + 1) =~= domain_residuals(domains@).take(
                i as int,
            ).push(next@));
        }
        decisions.push(decision);
        residuals.push(next);
        i = i + 1;
    }
    proof {
        assert(domain_decisions(domains@).take(domains.len() as int) =~= domain_decisions(
            domains@,
        ));
        assert(domain_residuals(domains@).take(domains.len() as int) =~= domain_residuals(
            domains@,
        ));
    }
    let decision = merge_decisions(&decisions);
    proof {
        let ds = domain_decisions(domains@);
        if exists|i: int| 0 <= i < ds.len() && #[trigger] ds[i] == CorridorDecision::Stop {
            let i = choose|i: int| 0 <= i < ds.len() && #[trigger] ds[i] == CorridorDecision::Stop;
            assert(domains[i].verdict().0 == CorridorDecision::Stop);
        }
        if exists|i: int|
            0 <= i < domains.len() && (#[trigger] domains[i]).verdict().0
                == CorridorDecision::Stop {
            let i = choose|i: int|
                0 <= i < domains.len() && (#[trigger] domains[i]).verdict().0
                    == CorridorDecision::Stop;
            assert(ds[i] == CorridorDecision::Stop);
        }
        if forall|i: int| 0 <= i < ds.len() ==> #[trigger] ds[i] == CorridorDecision::Okay {
            assert forall|i: int| 0 <= i < domains.len() implies (#[trigger] domains[i]).verdict().0
                == CorridorDecision::Okay by {
                assert(ds[i] == CorridorDecision::Okay);
            }
        }
    }
    CompositeOutcome { decision, decisions, residuals }
}

} // verus!
