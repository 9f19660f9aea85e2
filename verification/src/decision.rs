//! The single-step decider: whether a proposed next state may proceed, must
//! be throttled, or must halt.

use vstd::prelude::*;
use crate::fixed::ONE;
use crate::residual::{Residual, RiskCoord};

verus! {

/// The verdict on one step. `Stop` dominates `Derate`, which dominates `Okay`.
#[derive(Copy, Debug, PartialEq, Eq, Structural)]
pub enum CorridorDecision {
    /// The step may proceed as proposed.
    Okay,
    /// The step may proceed throttled.
    Derate,
    /// The step must not proceed.
    Stop,
}

impl Clone for CorridorDecision {
    fn clone(&self) -> (r: Self)
        ensures
            r == *self,
    {
        *self
    }
}

impl CorridorDecision {
    /// The rank of the decision in the dominance order.
    pub open spec fn rank(self) -> int {
        match self {
            CorridorDecision::Okay => 0,
            CorridorDecision::Derate => 1,
            CorridorDecision::Stop => 2,
        }
    }

    /// The dominant one of two decisions.
    pub open spec fn dominant(self, other: CorridorDecision) -> CorridorDecision {
        if self.rank() >= other.rank() {
            self
        } else {
            other
        }
    }

    /// The numeric code of the decision: 0 for `Okay`, 1 for `Derate`, 2 for
    /// `Stop`.
    pub fn code(self) -> (c: i32)
        ensures
            c == self.rank(),
    {
        match self {
            CorridorDecision::Okay => 0,
            CorridorDecision::Derate => 1,
            CorridorDecision::Stop => 2,
        }
    }

    /// The dominant one of two decisions.
    pub fn max(self, other: CorridorDecision) -> (d: CorridorDecision)
        ensures
            d == self.dominant(other),
    {
        if self.code() >= other.code() {
            self
        } else {
            other
        }
    }

    /// Whether the step must at least be throttled.
    pub fn derate(self) -> (b: bool)
        ensures
            b == (self != CorridorDecision::Okay),
    {
        match self {
            CorridorDecision::Okay => false,
            _ => true,
        }
    }

    /// Whether the step must halt.
    pub fn stop(self) -> (b: bool)
        ensures
            b == (self == CorridorDecision::Stop),
    {
        match self {
            CorridorDecision::Stop => true,
            _ => false,
        }
    }
}

/// Which rule decided a step.
#[derive(Copy, Debug, PartialEq, Eq, Structural)]
pub enum StepReason {
    /// A coordinate of the next state reached its hard limit.
    HardBreach,
    /// A coordinate of the next state is negative, which no normalised risk is.
    OutOfRange,
    /// Every coordinate of the next state lies in its safe interior.
    SafeInterior,
    /// The residual did not increase.
    WithinCorridors,
    /// The residual increased outside the safe interior.
    ResidualIncreased,
    /// The state could not be read: a band has a defect, a coordinate is
    /// not well formed or a value cannot be represented.
    MalformedInput,
}

impl Clone for StepReason {
    fn clone(&self) -> (r: Self)
        ensures
            r == *self,
    {
        *self
    }
}

impl StepReason {
    /// The reason in words.
    pub open spec fn text(self) -> Seq<char> {
        match self {
            StepReason::HardBreach => "hard corridor breach: r_x >= 1.0"@,
            StepReason::OutOfRange => "risk coordinate below 0.0"@,
            StepReason::SafeInterior => "within the safe interior"@,
            StepReason::WithinCorridors => "within corridors"@,
            StepReason::ResidualIncreased => "Lyapunov residual increased"@,
            StepReason::MalformedInput => "malformed input"@,
        }
    }

    /// The reason in words.
    pub fn message(&self) -> (s: String)
        ensures
            s@ == self.text(),
    {
        match self {
            StepReason::HardBreach => "hard corridor breach: r_x >= 1.0".to_owned(),
            StepReason::OutOfRange => "risk coordinate below 0.0".to_owned(),
            StepReason::SafeInterior => "within the safe interior".to_owned(),
            StepReason::WithinCorridors => "within corridors".to_owned(),
            StepReason::ResidualIncreased => "Lyapunov residual increased".to_owned(),
            StepReason::MalformedInput => "malformed input".to_owned(),
        }
    }
}

/// A decision together with the rule that fired.
#[derive(Copy, Debug, PartialEq, Eq, Structural)]
pub struct StepOutcome {
    /// The verdict.
    pub decision: CorridorDecision,
    /// The rule behind the verdict.
    pub reason: StepReason,
}

impl Clone for StepOutcome {
    fn clone(&self) -> (r: Self)
        ensures
            r == *self,
    {
        *self
    }
}

/// Where the safe interior of a coordinate ends.
#[derive(Copy, Debug, PartialEq, Eq, Structural)]
pub enum InteriorRule {
    /// At the safe-interior threshold of the coordinate's own band.
    PerBand,
    /// At one threshold for all coordinates.
    Uniform(i64),
    /// Nowhere: no state counts as interior.
    Disabled,
}

impl Clone for InteriorRule {
    fn clone(&self) -> (r: Self)
        ensures
            r == *self,
    {
        *self
    }
}

/// Whether some coordinate has reached its hard limit.
pub open spec fn any_hard_breach(coords: Seq<RiskCoord>) -> bool {
    exists|i: int| 0 <= i < coords.len() && (#[trigger] coords[i]).value >= ONE
}

/// Whether some coordinate is negative.
pub open spec fn any_negative(coords: Seq<RiskCoord>) -> bool {
    exists|i: int| 0 <= i < coords.len() && (#[trigger] coords[i]).value < 0
}

/// Whether one coordinate lies in its safe interior.
pub open spec fn within_interior(rule: InteriorRule, c: RiskCoord) -> bool {
    match rule {
        InteriorRule::PerBand => c.value <= c.bands.safe_rx,
        InteriorRule::Uniform(limit) => c.value <= limit,
        InteriorRule::Disabled => false,
    }
}

/// Whether the state is interior: the rule is enabled and every coordinate
/// lies in its safe interior.
pub open spec fn all_safe(rule: InteriorRule, coords: Seq<RiskCoord>) -> bool {
    &&& rule != InteriorRule::Disabled
    &&& forall|i: int| 0 <= i < coords.len() ==> within_interior(rule, #[trigger] coords[i])
}

/// The outcome of one step. The hard limit is checked first, the safe
/// interior second and the residual trend last; a residual that stays equal
/// counts as not increased.
pub open spec fn step_outcome(
    rule: InteriorRule,
    prev_vt: int,
    next_vt: int,
    next_coords: Seq<RiskCoord>,
) -> StepOutcome {
    if any_hard_breach(next_coords) {
        StepOutcome { decision: CorridorDecision::Stop, reason: StepReason::HardBreach }
    } else if any_negative(next_coords) {
        StepOutcome { decision: CorridorDecision::Stop, reason: StepReason::OutOfRange }
    } else if all_safe(rule, next_coords) {
        StepOutcome { decision: CorridorDecision::Okay, reason: StepReason::SafeInterior }
    } else if next_vt <= prev_vt {
        StepOutcome { decision: CorridorDecision::Okay, reason: StepReason::WithinCorridors }
    } else {
        StepOutcome { decision: CorridorDecision::Derate, reason: StepReason::ResidualIncreased }
    }
}

/// The decision of one step between two residuals.
pub open spec fn step_decision(rule: InteriorRule, prev: Residual, next: Residual)
    -> CorridorDecision {
    step_outcome(rule, prev.vt as int, next.vt as int, next.coords@).decision
}

/// A hard breach in the next state stops the step whatever the residual does.
pub proof fn lemma_breach_stops(rule: InteriorRule, prev: Residual, next: Residual, i: int)
    requires
        0 <= i < next.coords@.len(),
        next.coords@[i].value >= ONE,
    ensures
        step_decision(rule, prev, next) == CorridorDecision::Stop,
{
}

/// A next state whose coordinates all lie in their safe interior is accepted
/// even where the residual has increased. Coordinates outside the half-open
/// unit interval stop the step before the interior is looked at, so they are
/// left out here.
pub proof fn lemma_interior_is_ok(rule: InteriorRule, prev: Residual, next: Residual)
    requires
        all_safe(rule, next.coords@),
        forall|i: int|
            0 <= i < next.coords@.len() ==> 0 <= (#[trigger] next.coords@[i]).value < ONE,
    ensures
        step_decision(rule, prev, next) == CorridorDecision::Okay,
{
}

/// What a decision tells of the step it was given on: a stopped step has a
/// coordinate at its hard limit or below zero; an accepted step has none, and
/// outside the safe interior its residual has not increased; a derated step
/// has none either, lies outside the interior and its residual has increased.
pub proof fn lemma_decision_tells(rule: InteriorRule, prev: Residual, next: Residual)
    ensures
        step_decision(rule, prev, next) == CorridorDecision::Stop <==> any_hard_breach(
            next.coords@,
        ) || any_negative(next.coords@),
        step_decision(rule, prev, next) == CorridorDecision::Okay ==> all_safe(rule, next.coords@)
            || next.vt <= prev.vt,
        step_decision(rule, prev, next) == CorridorDecision::Derate <==> !any_hard_breach(
            next.coords@,
        ) && !any_negative(next.coords@) && !all_safe(rule, next.coords@) && next.vt > prev.vt,
{
}

/// Whether one coordinate lies in its safe interior.
pub fn is_within_interior(rule: InteriorRule, c: &RiskCoord) -> (b: bool)
    ensures
        b == within_interior(rule, *c),
{
    match rule {
        InteriorRule::PerBand => c.value <= c.bands.safe_rx,
        InteriorRule::Uniform(limit) => c.value <= limit,
        InteriorRule::Disabled => false,
    }
}

/// Whether some coordinate has reached its hard limit.
pub fn has_hard_breach(coords: &Vec<RiskCoord>) -> (b: bool)
    ensures
        b == any_hard_breach(coords@),
{
    let mut i: usize = 0;
    while i < coords.len()
        invariant
            0 <= i <= coords.len(),
            forall|j: int| 0 <= j < i ==> (#[trigger] coords@[j]).value < ONE,
        decreases coords.len() - i,
    {
        if coords[i].value >= ONE {
            return true;
        }
        i = i + 1;
    }
    false
}

/// Whether some coordinate is negative.
pub fn has_negative(coords: &Vec<RiskCoord>) -> (b: bool)
    ensures
        b == any_negative(coords@),
{
    let mut i: usize = 0;
    while i < coords.len()
        invariant
            0 <= i <= coords.len(),
            forall|j: int| 0 <= j < i ==> (#[trigger] coords@[j]).value >= 0,
        decreases coords.len() - i,
    {
        if coords[i].value < 0 {
            return true;
        }
        i = i + 1;
    }
    false
}

/// Whether the state is interior under `rule`.
pub fn is_all_safe(rule: InteriorRule, coords: &Vec<RiskCoord>) -> (b: bool)
    ensures
        b == all_safe(rule, coords@),
{
    match rule {
        InteriorRule::Disabled => {
            return false;
        },
        _ => {},
    }
    let mut i: usize = 0;
    while i < coords.len()
        invariant
            0 <= i <= coords.len(),
            rule != InteriorRule::Disabled,
            forall|j: int| 0 <= j < i ==> within_interior(rule, #[trigger] coords@[j]),
        decreases coords.len() - i,
    {
        if !is_within_interior(rule, &coords[i]) {
            return false;
        }
        i = i + 1;
    }
    true
}

/// The decider of one domain. Its only setting is where the safe interior
/// ends.
#[derive(Copy, Debug, PartialEq, Eq, Structural)]
pub struct SafeStepDecider {
    /// Where the safe interior ends.
    pub interior: InteriorRule,
}

impl Clone for SafeStepDecider {
    fn clone(&self) -> (r: Self)
        ensures
            r == *self,
    {
        *self
    }
}

impl SafeStepDecider {
    /// The decider that ends the interior at each band's own threshold.
    pub fn per_band() -> (d: SafeStepDecider)
        ensures
            d.interior == InteriorRule::PerBand,
    {
        SafeStepDecider { interior: InteriorRule::PerBand }
    }

    /// Judges the step from `prev` to `next` and names the rule that fired.
    pub fn evaluate(&self, prev: &Residual, next: &Residual) -> (o: StepOutcome)
        ensures
            o == step_outcome(self.interior, prev.vt as int, next.vt as int, next.coords@),
            o.decision == step_decision(self.interior, *prev, *next),
            any_hard_breach(next.coords@) ==> o.decision == CorridorDecision::Stop,
    {
        if has_hard_breach(&next.coords) {
            StepOutcome { decision: CorridorDecision::Stop, reason: StepReason::HardBreach }
        } else if has_negative(&next.coords) {
            StepOutcome { decision: CorridorDecision::Stop, reason: StepReason::OutOfRange }
        } else if is_all_safe(self.interior, &next.coords) {
            StepOutcome { decision: CorridorDecision::Okay, reason: StepReason::SafeInterior }
        } else if next.vt <= prev.vt {
            StepOutcome { decision: CorridorDecision::Okay, reason: StepReason::WithinCorridors }
        } else {
            StepOutcome {
                decision: CorridorDecision::Derate,
                reason: StepReason::ResidualIncreased,
            }
        }
    }

    /// Judges the step from `prev` to `next`.
    pub fn decide(&self, prev: &Residual, next: &Residual) -> (d: CorridorDecision)
        ensures
            d == step_decision(self.interior, *prev, *next),
    {
        self.evaluate(prev, next).decision
    }
}

/// Judges the step from `prev` to `next`, with the safe interior of each
/// coordinate ending at its band's threshold.
pub fn safe_step(prev: &Residual, next: &Residual) -> (d: CorridorDecision)
    ensures
        d == step_decision(InteriorRule::PerBand, *prev, *next),
{
    SafeStepDecider::per_band().decide(prev, next)
}

/// Judging the same pair of residuals twice gives the same decision: whatever
/// two evaluations return, they agree.
pub proof fn lemma_safe_step_idempotent(
    prev: Residual,
    next: Residual,
    first: CorridorDecision,
    second: CorridorDecision,
)
    requires
        call_ensures(safe_step, (&prev, &next), first),
        call_ensures(safe_step, (&prev, &next), second),
    ensures
        first == second,
{
}

} // verus!
