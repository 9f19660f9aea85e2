//! The entry points for embedding hosts: plain numbers in, numeric codes
//! out, and every malformed input answered with `Stop`.

use vstd::prelude::*;
use crate::bands::{BandError, CorridorBands, Polarity};
use crate::decision::{
    all_safe, any_hard_breach, any_negative, safe_step, CorridorDecision, InteriorRule,
};
use crate::fixed::{in_unit_interval, ONE};
use crate::residual::{Residual, RiskCoord};

verus! {

/// The thresholds and weight of a band as a host passes them.
#[derive(Copy, Debug, PartialEq, Eq, Structural)]
pub struct FfiBands {
    /// The safe threshold.
    pub safe: i64,
    /// The gold threshold.
    pub gold: i64,
    /// The hard threshold.
    pub hard: i64,
    /// The weight.
    pub weight: i64,
}

impl Clone for FfiBands {
    fn clone(&self) -> (r: Self)
        ensures
            r == *self,
    {
        *self
    }
}

/// The residuals before and after a step as a host passes them.
#[derive(Copy, Debug, PartialEq, Eq, Structural)]
pub struct FfiResidualInput {
    /// The residual before the step.
    pub prev_vt: i64,
    /// The residual after the step.
    pub next_vt: i64,
}

impl Clone for FfiResidualInput {
    fn clone(&self) -> (r: Self)
        ensures
            r == *self,
    {
        *self
    }
}

/// The answer to a host as two codes.
#[derive(Copy, Debug, PartialEq, Eq, Structural)]
pub struct FfiDecision {
    /// 0 for `Okay`, 1 for `Derate`, 2 for `Stop`.
    pub decision_code: i32,
    /// 0 for no finding, 1 for a violated axis, 2 for an increased
    /// residual, -1 where the residual was not checked.
    pub residual_check: i32,
}

impl Clone for FfiDecision {
    fn clone(&self) -> (r: Self)
        ensures
            r == *self,
    {
        *self
    }
}

/// The code of an unchecked residual.
pub const NOT_CHECKED: i32 = -1;

/// What a check of two metric records found.
#[derive(Copy, Debug, PartialEq, Eq, Structural)]
pub enum ResidualCheck {
    /// Nothing: every axis is within its limit and the residual did not
    /// increase.
    Okay,
    /// An axis has reached its limit or left the unit interval, or the
    /// records differ in their number of axes.
    ViolatedAxis,
    /// The residual increased.
    IncreasedResidual,
}

impl Clone for ResidualCheck {
    fn clone(&self) -> (r: Self)
        ensures
            r == *self,
    {
        *self
    }
}

impl ResidualCheck {
    /// The code of the finding.
    pub open spec fn rank(self) -> int {
        match self {
            ResidualCheck::Okay => 0,
            ResidualCheck::ViolatedAxis => 1,
            ResidualCheck::IncreasedResidual => 2,
        }
    }

    /// The decision a finding leads to: a violated axis stops, an increased
    /// residual derates.
    pub open spec fn verdict(self) -> CorridorDecision {
        match self {
            ResidualCheck::Okay => CorridorDecision::Okay,
            ResidualCheck::ViolatedAxis => CorridorDecision::Stop,
            ResidualCheck::IncreasedResidual => CorridorDecision::Derate,
        }
    }
}

/// The code of a decision: 0 for `Okay`, 1 for `Derate`, 2 for `Stop`.
pub fn decision_to_code(d: CorridorDecision) -> (c: i32)
    ensures
        c == d.rank(),
{
    d.code()
}

/// The code of a finding: 0 for none, 1 for a violated axis, 2 for an
/// increased residual.
pub fn residual_check_to_code(c: ResidualCheck) -> (code: i32)
    ensures
        code == c.rank(),
{
    match c {
        ResidualCheck::Okay => 0,
        ResidualCheck::ViolatedAxis => 1,
        ResidualCheck::IncreasedResidual => 2,
    }
}

/// The band a host describes by four numbers: no name, no unit, the safe
/// interior at the safe threshold, polarity read off the thresholds.
pub fn host_band(safe: i64, gold: i64, hard: i64, weight: i64) -> (b: CorridorBands)
    ensures
        b.safe == safe,
        b.gold == gold,
        b.hard == hard,
        b.weight_w == weight,
        b.safe_rx == safe,
        b.polarity == crate::bands::polarity_of(safe as int, hard as int),
        b.well_formed() <==> safe != hard && weight >= 0,
{
    CorridorBands::new("", "", safe, gold, hard, weight, 0, false)
}

/// Normalises one value under a band that the host describes by four
/// numbers. A band with equal thresholds or a negative weight is rejected.
pub fn normalize_metric(value: i64, safe: i64, gold: i64, hard: i64, weight: i64) -> (r: Result<
    i64,
    BandError,
>)
    ensures
        r is Ok <==> safe != hard && weight >= 0,
        r matches Ok(v) ==> 0 <= v <= ONE && v == match crate::bands::polarity_of(
            safe as int,
            hard as int,
        ) {
            Polarity::LowerIsSafer => crate::normalize::rising_risk(
                value as int,
                safe as int,
                hard as int,
            ),
            Polarity::HigherIsSafer => crate::normalize::falling_risk(
                value as int,
                safe as int,
                hard as int,
            ),
        },
        r matches Err(e) ==> e == if safe == hard {
            BandError::EqualThresholds
        } else {
            BandError::NegativeWeight
        },
{
    let bands = host_band(safe, gold, hard, weight);
    crate::normalize::normalize_metric(value, &bands)
}

/// Whether every risk of the list lies in the unit interval.
pub open spec fn all_in_unit_interval(rx: Seq<i64>) -> bool {
    forall|i: int| 0 <= i < rx.len() ==> in_unit_interval(#[trigger] rx[i] as int)
}

/// Whether some risk of the list has reached the hard limit.
pub open spec fn any_at_limit(rx: Seq<i64>) -> bool {
    exists|i: int| 0 <= i < rx.len() && #[trigger] rx[i] >= ONE
}

/// Whether every risk of the list is zero or less.
pub open spec fn all_at_rest(rx: Seq<i64>) -> bool {
    forall|i: int| 0 <= i < rx.len() ==> #[trigger] rx[i] <= 0
}

/// Whether the two lists of risks can be judged at all: they are not empty,
/// have the same length and hold risks of the unit interval only.
pub open spec fn risks_admissible(prev_rx: Seq<i64>, next_rx: Seq<i64>) -> bool {
    &&& prev_rx.len() > 0
    &&& prev_rx.len() == next_rx.len()
    &&& all_in_unit_interval(prev_rx)
    &&& all_in_unit_interval(next_rx)
}

/// The answer to a host's step query. Inadmissible risks are answered with
/// `Stop` and a violated axis. Otherwise the residual is not checked and the
/// step is judged with bands from 0 to 1: a risk at the limit stops, a state
/// at rest passes, and else the residual must not increase.
pub open spec fn host_step(prev_vt: int, next_vt: int, prev_rx: Seq<i64>, next_rx: Seq<i64>)
    -> FfiDecision {
    if !risks_admissible(prev_rx, next_rx) {
        FfiDecision { decision_code: 2, residual_check: 1 }
    } else if any_at_limit(next_rx) {
        FfiDecision { decision_code: 2, residual_check: NOT_CHECKED }
    } else if all_at_rest(next_rx) || next_vt <= prev_vt {
        FfiDecision { decision_code: 0, residual_check: NOT_CHECKED }
    } else {
        FfiDecision { decision_code: 1, residual_check: NOT_CHECKED }
    }
}

/// Whether every risk of the list lies in the unit interval.
pub fn risks_in_unit_interval(rx: &[i64]) -> (ok: bool)
    ensures
        ok == all_in_unit_interval(rx@),
{
    let mut i: usize = 0;
    while i < rx.len()
        invariant
            0 <= i <= rx.len(),
            forall|j: int| 0 <= j < i ==> in_unit_interval(#[trigger] rx@[j] as int),
        decreases rx.len() - i,
    {
        if rx[i] < 0 || rx[i] > ONE {
            return false;
        }
        i = i + 1;
    }
    true
}

/// Whether `coords` holds the risks of `rx`, each under a band whose safe
/// interior ends at zero.
pub open spec fn coords_carry(coords: Seq<RiskCoord>, rx: Seq<i64>) -> bool {
    &&& coords.len() == rx.len()
    &&& forall|i: int|
        0 <= i < rx.len() ==> (#[trigger] coords[i]).value == rx[i] && coords[i].bands.safe_rx == 0
}

/// The coordinates of bare risks: each under the band from 0 to 1 with
/// weight 1.
pub fn unit_coords(rx: &[i64]) -> (coords: Vec<RiskCoord>)
    ensures
        coords_carry(coords@, rx@),
{
    let mut coords: Vec<RiskCoord> = Vec::new();
    let mut i: usize = 0;
    while i < rx.len()
        invariant
            0 <= i <= rx.len(),
            coords_carry(coords@, rx@.take(i as int)),
        decreases rx.len() - i,
    {
        let bands = host_band(0, 0, ONE, ONE);
        coords.push(RiskCoord { value: rx[i], sigma: 0, bands });
        i = i + 1;
    }
    assert(rx@.take(rx.len() as int) =~= rx@);
    coords
}

/// Coordinates that carry bare risks are judged by those risks alone.
pub proof fn lemma_coords_carry(coords: Seq<RiskCoord>, rx: Seq<i64>)
    requires
        coords_carry(coords, rx),
    ensures
        any_hard_breach(coords) == any_at_limit(rx),
        any_negative(coords) == !(forall|i: int| 0 <= i < rx.len() ==> #[trigger] rx[i] >= 0),
        all_safe(InteriorRule::PerBand, coords) == all_at_rest(rx),
{
    if any_hard_breach(coords) {
        let i = choose|i: int| 0 <= i < coords.len() && (#[trigger] coords[i]).value >= ONE;
        assert(rx[i] >= ONE);
    }
    if any_at_limit(rx) {
        let i = choose|i: int| 0 <= i < rx.len() && #[trigger] rx[i] >= ONE;
        assert(coords[i].value >= ONE);
    }
    if any_negative(coords) {
        let i = choose|i: int| 0 <= i < coords.len() && (#[trigger] coords[i]).value < 0;
        assert(rx[i] < 0);
    }
    if !(forall|i: int| 0 <= i < rx.len() ==> #[trigger] rx[i] >= 0) {
        let i = choose|i: int| 0 <= i < rx.len() && !(#[trigger] rx[i] >= 0);
        assert(coords[i].value < 0);
    }
    if all_at_rest(rx) {
        assert forall|i: int| 0 <= i < coords.len() implies crate::decision::within_interior(
            InteriorRule::PerBand,
            #[trigger] coords[i],
        ) by {
            assert(rx[i] <= 0);
        }
    }
    if all_safe(InteriorRule::PerBand, coords) {
        assert forall|i: int| 0 <= i < rx.len() implies #[trigger] rx[i] <= 0 by {
            assert(crate::decision::within_interior(InteriorRule::PerBand, coords[i]));
        }
    }
}

/// Answers a host's step query from the residuals and the normalised risks
/// before and after the step. Empty lists, lists of different lengths and
/// risks outside the unit interval are answered with `Stop` and a violated
/// axis; anything else with the decision of the step and an unchecked
/// residual.
pub fn safe_step_decision(prev_vt: i64, next_vt: i64, prev_rx: &[i64], next_rx: &[i64]) -> (out:
    FfiDecision)
    ensures
        out == host_step(prev_vt as int, next_vt as int, prev_rx@, next_rx@),
        !risks_admissible(prev_rx@, next_rx@) ==> out == (FfiDecision {
            decision_code: 2,
            residual_check: 1,
        }),
{
    if prev_rx.len() == 0 || prev_rx.len() != next_rx.len() {
        return FfiDecision { decision_code: 2, residual_check: 1 };
    }
    if !risks_in_unit_interval(prev_rx) || !risks_in_unit_interval(next_rx) {
        return FfiDecision { decision_code: 2, residual_check: 1 };
    }
    let prev = Residual { vt: prev_vt, coords: unit_coords(prev_rx) };
    let next = Residual { vt: next_vt, coords: unit_coords(next_rx) };
    proof {
        lemma_coords_carry(next.coords@, next_rx@);
        assert forall|i: int| 0 <= i < next_rx@.len() implies #[trigger] next_rx@[i] >= 0 by {
            assert(in_unit_interval(next_rx@[i] as int));
        }
    }
    let decision = safe_step(&prev, &next);
    FfiDecision { decision_code: decision_to_code(decision), residual_check: NOT_CHECKED }
}

/// The scores, risks and residual of one state as a host passes them.
#[derive(Debug, PartialEq, Eq)]
pub struct MetricFields {
    /// The knowledge factor.
    pub k: i64,
    /// The eco-impact value.
    pub e: i64,
    /// The risk of harm.
    pub r: i64,
    /// The normalised risks, one per axis.
    pub rx: Vec<i64>,
    /// The residual.
    pub vt: i64,
}

impl MetricFields {
    /// A record is well formed when its scores and risks lie in the unit
    /// interval and its residual is not negative.
    pub open spec fn well_formed(&self) -> bool {
        &&& in_unit_interval(self.k as int)
        &&& in_unit_interval(self.e as int)
        &&& in_unit_interval(self.r as int)
        &&& self.vt >= 0
        &&& all_in_unit_interval(self.rx@)
    }

    /// Whether the record is well formed.
    pub fn is_well_formed(&self) -> (ok: bool)
        ensures
            ok == self.well_formed(),
    {
        0 <= self.k && self.k <= ONE && 0 <= self.e && self.e <= ONE && 0 <= self.r && self.r
            <= ONE && self.vt >= 0 && risks_in_unit_interval(self.rx.as_slice())
    }
}

/// What a check of two records finds: a violated axis where the records
/// differ in length or a risk of the next record has reached the limit or is
/// negative; else an increased residual where it increased; else nothing.
pub open spec fn residual_finding(prev: MetricFields, next: MetricFields) -> ResidualCheck {
    if prev.rx@.len() != next.rx@.len() || any_at_limit(next.rx@) || !(forall|i: int|
        0 <= i < next.rx@.len() ==> #[trigger] next.rx@[i] >= 0) {
        ResidualCheck::ViolatedAxis
    } else if next.vt > prev.vt {
        ResidualCheck::IncreasedResidual
    } else {
        ResidualCheck::Okay
    }
}

/// Checks the axes and the residual of `next` against `prev`.
pub fn residual_ok(prev: &MetricFields, next: &MetricFields) -> (c: ResidualCheck)
    ensures
        c == residual_finding(*prev, *next),
{
    if prev.rx.len() != next.rx.len() {
        return ResidualCheck::ViolatedAxis;
    }
    let mut i: usize = 0;
    while i < next.rx.len()
        invariant
            0 <= i <= next.rx.len(),
            forall|j: int| 0 <= j < i ==> 0 <= #[trigger] next.rx@[j] < ONE,
        decreases next.rx.len() - i,
    {
        if next.rx[i] >= ONE || next.rx[i] < 0 {
            return ResidualCheck::ViolatedAxis;
        }
        i = i + 1;
    }
    if next.vt > prev.vt {
        ResidualCheck::IncreasedResidual
    } else {
        ResidualCheck::Okay
    }
}

/// The answer to a host's guard query. Inadmissible risks and malformed
/// records are answered with `Stop` and a violated axis; anything else with
/// what the check of the two records finds and the decision that finding
/// leads to.
pub open spec fn host_guard(prev: MetricFields, next: MetricFields) -> FfiDecision {
    if !risks_admissible(prev.rx@, next.rx@) || !prev.well_formed() || !next.well_formed() {
        FfiDecision { decision_code: 2, residual_check: 1 }
    } else {
        FfiDecision {
            decision_code: residual_finding(prev, next).verdict().rank() as i32,
            residual_check: residual_finding(prev, next).rank() as i32,
        }
    }
}

/// Answers a host's guard query: is the step from `prev` to `next` allowed?
pub fn residual_guard(prev: &MetricFields, next: &MetricFields) -> (out: FfiDecision)
    ensures
        out == host_guard(*prev, *next),
{
    if prev.rx.len() == 0 || prev.rx.len() != next.rx.len() {
        return FfiDecision { decision_code: 2, residual_check: 1 };
    }
    if !prev.is_well_formed() || !next.is_well_formed() {
        return FfiDecision { decision_code: 2, residual_check: 1 };
    }
    let check = residual_ok(prev, next);
    let decision = match check {
        ResidualCheck::Okay => CorridorDecision::Okay,
        ResidualCheck::ViolatedAxis => CorridorDecision::Stop,
        ResidualCheck::IncreasedResidual => CorridorDecision::Derate,
    };
    FfiDecision {
        decision_code: decision_to_code(decision),
        residual_check: residual_check_to_code(check),
    }
}

} // verus!
