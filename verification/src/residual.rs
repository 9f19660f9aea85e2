//! Risk coordinates and the residual they aggregate to.

use vstd::prelude::*;
use vstd::seq_lib::{to_multiset_contains, to_multiset_len, to_multiset_remove};
use crate::bands::{BandError, CorridorBands};
use crate::fixed::ONE;
use crate::normalize::{lemma_risk_in_unit_interval, normalize_metric, rising, rising_risk};

verus! {

/// One measurement normalised to a risk between 0 (safe) and 1 (hard limit),
/// together with the band it was normalised under.
#[derive(Debug, PartialEq, Eq)]
pub struct RiskCoord {
    /// The normalised risk.
    pub value: i64,
    /// The uncertainty of the risk.
    pub sigma: i64,
    /// The band that owns the coordinate.
    pub bands: CorridorBands,
}

impl Clone for RiskCoord {
    fn clone(&self) -> (r: Self)
        ensures
            r == *self,
    {
        RiskCoord { value: self.value, sigma: self.sigma, bands: self.bands.clone() }
    }
}

/// The coordinate of the raw value `raw` under `bands`, with no uncertainty.
pub open spec fn coord_under(bands: CorridorBands, raw: int) -> RiskCoord {
    RiskCoord { value: bands.risk_of(raw) as i64, sigma: 0, bands }
}

impl RiskCoord {
    /// A coordinate is well formed when its risk lies in the unit interval,
    /// its uncertainty is not negative and its band is well formed.
    pub open spec fn well_formed(&self) -> bool {
        &&& 0 <= self.value <= ONE
        &&& self.sigma >= 0
        &&& self.bands.well_formed()
    }

    /// Whether the coordinate is well formed.
    pub fn is_well_formed(&self) -> (ok: bool)
        ensures
            ok == self.well_formed(),
    {
        0 <= self.value && self.value <= ONE && self.sigma >= 0 && self.bands.is_well_formed()
    }

    /// The coordinate of a raw measurement under `bands`, with no
    /// uncertainty. A band with a defect is rejected with that defect.
    pub fn from_raw(raw: i64, bands: &CorridorBands) -> (r: Result<RiskCoord, BandError>)
        ensures
            r is Ok <==> bands.well_formed(),
            r matches Ok(c) ==> c == coord_under(*bands, raw as int) && c.value == bands.risk_of(
                raw as int,
            ) && c.well_formed(),
            r matches Err(e) ==> bands.defect() == Some(e),
    {
        proof {
            lemma_risk_in_unit_interval(*bands, raw as int);
        }
        match normalize_metric(raw, bands) {
            Ok(value) => Ok(RiskCoord { value, sigma: 0, bands: bands.clone() }),
            Err(e) => Err(e),
        }
    }
}

/// The coordinate of `x` under a band whose thresholds lie in the unit
/// interval with the safe one below the hard one: 0 up to the safe
/// threshold, 1 from the hard threshold on, linear in between.
pub fn to_r_linear(x: i64, bands: &CorridorBands) -> (c: RiskCoord)
    requires
        bands.safe < bands.hard,
        bands.hard <= ONE,
    ensures
        c.value == rising_risk(x as int, bands.safe as int, bands.hard as int),
        0 <= c.value <= ONE,
        c.sigma == 0,
        c.bands == *bands,
{
    RiskCoord { value: rising(x, bands.safe, bands.hard), sigma: 0, bands: bands.clone() }
}

/// How a coordinate enters the residual.
#[derive(Copy, Debug, PartialEq, Eq, Structural)]
pub enum AggregationMode {
    /// Each coordinate contributes its weight times its risk.
    Linear,
    /// Each coordinate contributes its weight times the square of its risk.
    Squared,
}

impl Clone for AggregationMode {
    fn clone(&self) -> (r: Self)
        ensures
            r == *self,
    {
        *self
    }
}

/// The scalar residual of a state and the coordinates it was derived from,
/// in the order in which they were given.
#[derive(Debug, PartialEq, Eq)]
pub struct Residual {
    /// The residual value.
    pub vt: i64,
    /// The coordinates, kept for traceability.
    pub coords: Vec<RiskCoord>,
}

/// A residual as plain values: its value and the sequence of its
/// coordinates.
pub struct ResidualView {
    /// The residual value.
    pub vt: int,
    /// The coordinates, in order.
    pub coords: Seq<RiskCoord>,
}

impl View for Residual {
    type V = ResidualView;

    open spec fn view(&self) -> ResidualView {
        ResidualView { vt: self.vt as int, coords: self.coords@ }
    }
}

impl Clone for Residual {
    fn clone(&self) -> (r: Self)
        ensures
            r@ == self@,
    {
        let mut coords: Vec<RiskCoord> = Vec::new();
        let mut i: usize = 0;
        while i < self.coords.len()
            invariant
                0 <= i <= self.coords.len(),
                coords@ == self.coords@.take(i as int),
            decreases self.coords.len() - i,
        {
            coords.push(self.coords[i].clone());
            assert(self.coords@.take(i + 1) =~= self.coords@.take(i as int).push(
                self.coords@[i as int],
            ));
            i = i + 1;
        }
        assert(self.coords@.take(self.coords.len() as int) =~= self.coords@);
        Residual { vt: self.vt, coords }
    }
}

/// What one coordinate contributes to the weighted sum, before scaling.
pub open spec fn weighted_term(c: RiskCoord, mode: AggregationMode) -> int {
    match mode {
        AggregationMode::Linear => c.bands.weight_w * c.value,
        AggregationMode::Squared => c.bands.weight_w * c.value * c.value,
    }
}

/// The sum of the contributions of all coordinates, before scaling.
pub open spec fn weighted_sum(coords: Seq<RiskCoord>, mode: AggregationMode) -> int
    decreases coords.len(),
{
    if coords.len() == 0 {
        0
    } else {
        weighted_sum(coords.drop_last(), mode) + weighted_term(coords.last(), mode)
    }
}

/// The factor by which the weighted sum exceeds the residual.
pub open spec fn mode_scale(mode: AggregationMode) -> int {
    match mode {
        AggregationMode::Linear => ONE as int,
        AggregationMode::Squared => ONE * ONE,
    }
}

/// The residual of a list of coordinates: the weighted sum, rounded down to
/// billionths.
pub open spec fn residual_value(coords: Seq<RiskCoord>, mode: AggregationMode) -> int {
    weighted_sum(coords, mode) / mode_scale(mode)
}

/// Whether every coordinate of the list is well formed.
pub open spec fn all_well_formed(coords: Seq<RiskCoord>) -> bool {
    forall|i: int| 0 <= i < coords.len() ==> (#[trigger] coords[i]).well_formed()
}

/// The residual that aggregation yields: defined where every coordinate is
/// well formed and the value can be represented.
pub open spec fn aggregated(coords: Seq<RiskCoord>, mode: AggregationMode) -> Option<int> {
    if all_well_formed(coords) && residual_value(coords, mode) <= i64::MAX {
        Some(residual_value(coords, mode))
    } else {
        None
    }
}

impl Residual {
    /// A residual is consistent when its value is the one its coordinates
    /// aggregate to.
    pub open spec fn consistent(&self, mode: AggregationMode) -> bool {
        aggregated(self.coords@, mode) == Some(self.vt as int)
    }
}

/// The contribution of a well-formed coordinate is bounded.
pub proof fn lemma_term_bounds(c: RiskCoord, mode: AggregationMode)
    requires
        c.well_formed(),
    ensures
        0 <= weighted_term(c, mode) <= i64::MAX * mode_scale(mode),
{
    let w = c.bands.weight_w as int;
    let r = c.value as int;
    let one = ONE as int;
    assert(0 <= w * r <= i64::MAX * one) by (nonlinear_arith)
        requires
            0 <= w <= i64::MAX,
            0 <= r <= one,
    ;
    assert(0 <= w * r * r <= i64::MAX * (one * one)) by (nonlinear_arith)
        requires
            0 <= w <= i64::MAX,
            0 <= r <= one,
    ;
}

/// The weighted sum of well-formed coordinates is not negative and never
/// falls when a coordinate is appended.
pub proof fn lemma_sum_nonnegative(coords: Seq<RiskCoord>, mode: AggregationMode)
    requires
        all_well_formed(coords),
    ensures
        0 <= weighted_sum(coords, mode),
    decreases coords.len(),
{
    if coords.len() > 0 {
        assert(all_well_formed(coords.drop_last())) by {
            assert forall|i: int| 0 <= i < coords.drop_last().len() implies (
            #[trigger] coords.drop_last()[i]).well_formed() by {
                assert(coords[i].well_formed());
            }
        }
        lemma_sum_nonnegative(coords.drop_last(), mode);
        assert(coords.last() == coords[coords.len() - 1]);
        lemma_term_bounds(coords.last(), mode);
    }
}

/// A prefix of well-formed coordinates sums to no more than the whole list.
pub proof fn lemma_sum_prefix(coords: Seq<RiskCoord>, n: int, mode: AggregationMode)
    requires
        all_well_formed(coords),
        0 <= n <= coords.len(),
    ensures
        weighted_sum(coords.take(n), mode) <= weighted_sum(coords, mode),
    decreases coords.len() - n,
{
    if n == coords.len() {
        assert(coords.take(n) =~= coords);
    } else {
        lemma_sum_prefix(coords, n + 1, mode);
        assert(coords.take(n + 1).drop_last() =~= coords.take(n));
        assert(coords.take(n + 1).last() == coords[n]);
        lemma_term_bounds(coords[n], mode);
    }
}

/// The sum of the weights of all coordinates.
pub open spec fn total_weight(coords: Seq<RiskCoord>) -> int
    decreases coords.len(),
{
    if coords.len() == 0 {
        0
    } else {
        total_weight(coords.drop_last()) + coords.last().bands.weight_w
    }
}

/// The residual of well-formed coordinates lies between zero and the sum of
/// their weights.
pub proof fn lemma_residual_within_total_weight(coords: Seq<RiskCoord>, mode: AggregationMode)
    requires
        all_well_formed(coords),
    ensures
        0 <= weighted_sum(coords, mode) <= total_weight(coords) * mode_scale(mode),
        0 <= residual_value(coords, mode) <= total_weight(coords),
    decreases coords.len(),
{
    let d = mode_scale(mode);
    let one = ONE as int;
    assert(d > 0) by (nonlinear_arith)
        requires
            d == one || d == one * one,
            one == 1_000_000_000,
    ;
    if coords.len() > 0 {
        let front = coords.drop_last();
        let c = coords.last();
        assert(all_well_formed(front)) by {
            assert forall|i: int| 0 <= i < front.len() implies (
            #[trigger] front[i]).well_formed() by {
                assert(coords[i].well_formed());
            }
        }
        assert(c == coords[coords.len() - 1]);
        lemma_residual_within_total_weight(front, mode);
        let w = c.bands.weight_w as int;
        let r = c.value as int;
        assert(0 <= w * r <= w * one) by (nonlinear_arith)
            requires
                0 <= w,
                0 <= r <= one,
        ;
        assert(0 <= w * r * r <= w * (one * one)) by (nonlinear_arith)
            requires
                0 <= w,
                0 <= r <= one,
        ;
        let tf = total_weight(front);
        assert((tf + w) * d == tf * d + w * d) by (nonlinear_arith);
    }
    let s = weighted_sum(coords, mode);
    let t = total_weight(coords);
    assert(0 <= s / d <= t) by (nonlinear_arith)
        requires
            0 <= s <= t * d,
            d > 0,
    ;
}

/// Taking one coordinate out of a list lowers the weighted sum by exactly
/// that coordinate's contribution.
pub proof fn lemma_sum_remove(coords: Seq<RiskCoord>, i: int, mode: AggregationMode)
    requires
        0 <= i < coords.len(),
    ensures
        weighted_sum(coords, mode) == weighted_sum(coords.remove(i), mode) + weighted_term(
            coords[i],
            mode,
        ),
    decreases coords.len(),
{
    if i == coords.len() - 1 {
        assert(coords.remove(i) =~= coords.drop_last());
    } else {
        lemma_sum_remove(coords.drop_last(), i, mode);
        assert(coords.remove(i).drop_last() =~= coords.drop_last().remove(i));
        assert(coords.remove(i).last() == coords.last());
    }
}

/// The weighted sum does not depend on the order of the coordinates.
pub proof fn lemma_sum_permutation(a: Seq<RiskCoord>, b: Seq<RiskCoord>, mode: AggregationMode)
    requires
        a.to_multiset() == b.to_multiset(),
    ensures
        weighted_sum(a, mode) == weighted_sum(b, mode),
    decreases a.len(),
{
    to_multiset_len(a);
    to_multiset_len(b);
    if a.len() > 0 {
        let x = a.last();
        let last = a.len() - 1;
        assert(a.contains(x)) by {
            assert(a[last] == x);
        }
        to_multiset_contains(a, x);
        to_multiset_contains(b, x);
        let i = choose|i: int| 0 <= i < b.len() && b[i] == x;
        to_multiset_remove(a, last);
        to_multiset_remove(b, i);
        lemma_sum_permutation(a.remove(last), b.remove(i), mode);
        lemma_sum_remove(a, last, mode);
        lemma_sum_remove(b, i, mode);
    }
}

/// Whether all coordinates are well formed does not depend on their order.
pub proof fn lemma_well_formed_permutation(a: Seq<RiskCoord>, b: Seq<RiskCoord>)
    requires
        a.to_multiset() == b.to_multiset(),
        all_well_formed(a),
    ensures
        all_well_formed(b),
{
    assert forall|j: int| 0 <= j < b.len() implies (#[trigger] b[j]).well_formed() by {
        let x = b[j];
        assert(b.contains(x));
        to_multiset_contains(b, x);
        to_multiset_contains(a, x);
        let i = choose|i: int| 0 <= i < a.len() && a[i] == x;
        assert(a[i].well_formed());
    }
}

/// Aggregation is invariant under permutation: two lists that hold the same
/// coordinates, in whatever order, aggregate to the same residual or are both
/// rejected.
pub proof fn lemma_aggregate_permutation(
    a: Seq<RiskCoord>,
    b: Seq<RiskCoord>,
    mode: AggregationMode,
)
    requires
        a.to_multiset() == b.to_multiset(),
    ensures
        aggregated(a, mode) == aggregated(b, mode),
{
    lemma_sum_permutation(a, b, mode);
    if all_well_formed(a) {
        lemma_well_formed_permutation(a, b);
    }
    if all_well_formed(b) {
        lemma_well_formed_permutation(b, a);
    }
}

/// The largest weighted sum whose residual can still be represented.
pub open spec fn sum_limit(mode: AggregationMode) -> int {
    i64::MAX * mode_scale(mode) + mode_scale(mode) - 1
}

/// The residual can be represented exactly when the weighted sum stays
/// within its limit.
pub proof fn lemma_sum_limit(sum: int, mode: AggregationMode)
    requires
        0 <= sum,
    ensures
        sum / mode_scale(mode) <= i64::MAX <==> sum <= sum_limit(mode),
        0 <= sum / mode_scale(mode),
{
    let d = mode_scale(mode);
    let m = i64::MAX as int;
    assert(d > 0) by (nonlinear_arith)
        requires
            d == ONE as int || d == ONE * ONE,
    ;
    assert((sum / d <= m <==> sum <= m * d + d - 1) && 0 <= sum / d) by (nonlinear_arith)
        requires
            0 <= sum,
            d > 0,
    ;
}

fn contribution(c: &RiskCoord, mode: AggregationMode) -> (t: i128)
    requires
        c.well_formed(),
    ensures
        t == weighted_term(*c, mode),
        0 <= t <= i64::MAX * mode_scale(mode),
{
    proof {
        lemma_term_bounds(*c, mode);
        lemma_term_bounds(*c, AggregationMode::Linear);
    }
    let w: i128 = c.bands.weight_w as i128;
    let r: i128 = c.value as i128;
    match mode {
        AggregationMode::Linear => w * r,
        AggregationMode::Squared => {
            let wr: i128 = w * r;
            wr * r
        },
    }
}

fn limit_of(mode: AggregationMode) -> (l: i128)
    ensures
        l == sum_limit(mode),
        l + i64::MAX * mode_scale(mode) <= i128::MAX,
{
    match mode {
        AggregationMode::Linear => 9_223_372_036_854_775_807_999_999_999i128,
        AggregationMode::Squared => 9_223_372_036_854_775_807_999_999_999_999_999_999i128,
    }
}

fn scale_of(mode: AggregationMode) -> (d: i128)
    ensures
        d == mode_scale(mode),
        d > 0,
{
    match mode {
        AggregationMode::Linear => 1_000_000_000i128,
        AggregationMode::Squared => 1_000_000_000_000_000_000i128,
    }
}

/// The residual value of `coords`, or `None` where a coordinate is not well
/// formed or the value cannot be represented.
pub fn residual_of(coords: &Vec<RiskCoord>, mode: AggregationMode) -> (v: Option<i64>)
    ensures
        v is Some <==> aggregated(coords@, mode) is Some,
        v matches Some(x) ==> aggregated(coords@, mode) == Some(x as int) && 0 <= x,
{
    let limit: i128 = limit_of(mode);
    let mut total: i128 = 0;
    let mut i: usize = 0;
    while i < coords.len()
        invariant
            0 <= i <= coords.len(),
            all_well_formed(coords@.take(i as int)),
            total == weighted_sum(coords@.take(i as int), mode),
            0 <= total <= limit,
            limit == sum_limit(mode),
            limit + i64::MAX * mode_scale(mode) <= i128::MAX,
        decreases coords.len() - i,
    {
        if !coords[i].is_well_formed() {
            assert(!all_well_formed(coords@));
            return None;
        }
        let t: i128 = contribution(&coords[i], mode);
        proof {
            assert(coords@.take(i + 1).drop_last() =~= coords@.take(i as int));
            assert(coords@.take(i + 1).last() == coords@[i as int]);
            assert(all_well_formed(coords@.take(i + 1))) by {
                assert forall|j: int| 0 <= j < i + 1 implies (#[trigger] coords@.take(
                    i + 1,
                )[j]).well_formed() by {
                    if j < i {
                        assert(coords@.take(i as int)[j].well_formed());
                    }
                }
            }
        }
        total = total + t;
        i = i + 1;
        if total > limit {
            proof {
                if all_well_formed(coords@) {
                    lemma_sum_prefix(coords@, i as int, mode);
                    lemma_sum_nonnegative(coords@, mode);
                    lemma_sum_limit(weighted_sum(coords@, mode), mode);
                }
            }
            return None;
        }
    }
    proof {
        assert(coords@.take(coords.len() as int) =~= coords@);
        lemma_sum_limit(total as int, mode);
    }
    let d: i128 = scale_of(mode);
    let q: i128 = total / d;
    Some(q as i64)
}

/// Aggregates coordinates into a residual. The coordinates are kept in their
/// order; the value is the one they aggregate to. Where a coordinate is not
/// well formed, or the value cannot be represented, nothing is returned.
pub fn aggregate(coords: Vec<RiskCoord>, mode: AggregationMode) -> (r: Option<Residual>)
    ensures
        r is Some <==> aggregated(coords@, mode) is Some,
        r matches Some(res) ==> res.coords@ == coords@ && res.consistent(mode) && 0 <= res.vt,
{
    match residual_of(&coords, mode) {
        Some(vt) => Some(Residual { vt, coords }),
        None => None,
    }
}

impl Residual {
    /// Whether the value is the one the coordinates aggregate to.
    pub fn is_consistent(&self, mode: AggregationMode) -> (ok: bool)
        ensures
            ok == self.consistent(mode),
    {
        match residual_of(&self.coords, mode) {
            Some(v) => v == self.vt,
            None => false,
        }
    }

    /// Recomputes the value from the coordinates. The coordinates stay as
    /// they are. Where they aggregate to nothing, the value is left unchanged
    /// and `false` is returned. Recomputation is idempotent: a consistent
    /// residual is left as it is.
    pub fn recompute(&mut self, mode: AggregationMode) -> (ok: bool)
        ensures
            final(self).coords == old(self).coords,
            ok == aggregated(old(self).coords@, mode) is Some,
            ok ==> final(self).consistent(mode),
            !ok ==> final(self).vt == old(self).vt,
            old(self).consistent(mode) ==> ok && final(self).vt == old(self).vt,
    {
        match residual_of(&self.coords, mode) {
            Some(v) => {
                self.vt = v;
                true
            },
            None => false,
        }
    }
}

} // verus!
