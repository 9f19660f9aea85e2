//! The knowledge, eco-impact and risk-of-harm triple.

use vstd::prelude::*;
use crate::fixed::{
    clamp01, clamped_to_unit, floor_div, in_unit_interval, scaled_product, unit_product, ONE,
};

verus! {

/// Knowledge `k`, eco-impact `e` and risk of harm `r`, each meant to lie in
/// the unit interval.
#[derive(Copy, Debug, PartialEq, Eq, Structural)]
pub struct KerTriple {
    /// The knowledge factor.
    pub k: i64,
    /// The eco-impact value.
    pub e: i64,
    /// The risk of harm.
    pub r: i64,
}

impl Clone for KerTriple {
    fn clone(&self) -> (r: Self)
        ensures
            r == *self,
    {
        *self
    }
}

/// The triple under the name it has on chat shards.
pub type KerMetrics = KerTriple;

/// The triple under the name it has on research lines and recharge shards.
pub type KerScore = KerTriple;

impl KerTriple {
    /// A triple is well formed when all three scores lie in the unit
    /// interval.
    pub open spec fn well_formed(&self) -> bool {
        &&& in_unit_interval(self.k as int)
        &&& in_unit_interval(self.e as int)
        &&& in_unit_interval(self.r as int)
    }

    /// Whether all three scores lie in the unit interval.
    pub fn is_well_formed(&self) -> (ok: bool)
        ensures
            ok == self.well_formed(),
    {
        0 <= self.k && self.k <= ONE && 0 <= self.e && self.e <= ONE && 0 <= self.r && self.r
            <= ONE
    }
}

/// Whether the scores of `next` do not degrade those of `prev` and meet the
/// thresholds: knowledge and eco-impact must not fall and must reach their
/// minimum, risk must not rise and must stay within its maximum.
pub open spec fn ker_holds(
    prev: KerTriple,
    next: KerTriple,
    min_k: int,
    min_e: int,
    max_r: int,
) -> bool {
    &&& next.k >= prev.k
    &&& next.e >= prev.e
    &&& next.r <= prev.r
    &&& next.k >= min_k
    &&& next.e >= min_e
    &&& next.r <= max_r
}

/// Whether the scores after a step do not degrade the scores before it and
/// meet the thresholds.
pub fn ker_delta(
    prev_k: i64,
    prev_e: i64,
    prev_r: i64,
    next_k: i64,
    next_e: i64,
    next_r: i64,
    min_k: i64,
    min_e: i64,
    max_r: i64,
) -> (ok: bool)
    ensures
        ok == ker_holds(
            KerTriple { k: prev_k, e: prev_e, r: prev_r },
            KerTriple { k: next_k, e: next_e, r: next_r },
            min_k as int,
            min_e as int,
            max_r as int,
        ),
{
    next_k >= prev_k && next_e >= prev_e && next_r <= prev_r && next_k >= min_k && next_e
        >= min_e && next_r <= max_r
}

/// `x` moved towards 1 by the share `alpha` of the remaining distance.
pub open spec fn raised(x: int, alpha: int) -> int {
    clamped_to_unit(x + scaled_product(alpha, ONE - x))
}

/// `x` lowered by the share `alpha` of itself.
pub open spec fn lowered(x: int, alpha: int) -> int {
    clamped_to_unit(scaled_product(x, ONE - alpha))
}

/// The scores after new evidence of the given weight: knowledge and
/// eco-impact rise towards 1, risk falls towards 0.
pub open spec fn ker_after_evidence(ker: KerTriple, weight: int) -> KerTriple {
    let alpha = clamped_to_unit(weight);
    KerTriple {
        k: raised(ker.k as int, alpha) as i64,
        e: raised(ker.e as int, alpha) as i64,
        r: lowered(ker.r as int, alpha) as i64,
    }
}

/// Raising a score in the unit interval never lowers it, and lowering never
/// raises it.
pub proof fn lemma_evidence_improves(x: int, alpha: int)
    requires
        in_unit_interval(x),
        in_unit_interval(alpha),
    ensures
        x <= raised(x, alpha) <= ONE,
        0 <= lowered(x, alpha) <= x,
{
    let one = ONE as int;
    let up = alpha * (one - x);
    assert(0 <= up / one <= one - x) by (nonlinear_arith)
        requires
            up == alpha * (one - x),
            0 <= alpha <= one,
            0 <= x <= one,
            one > 0,
    ;
    let down = x * (one - alpha);
    assert(0 <= down / one <= x) by (nonlinear_arith)
        requires
            down == x * (one - alpha),
            0 <= alpha <= one,
            0 <= x <= one,
            one > 0,
    ;
}

fn raise(x: i64, alpha: i64) -> (r: i64)
    requires
        in_unit_interval(alpha as int),
    ensures
        r == raised(x as int, alpha as int),
        in_unit_interval(r as int),
{
    let rest: i128 = ONE as i128 - x as i128;
    assert(-0x1_0000_0000_0000_0000_0000_0000 <= alpha * rest
        <= 0x1_0000_0000_0000_0000_0000_0000) by (nonlinear_arith)
        requires
            0 <= alpha <= 0x1_0000_0000,
            -0x1_0000_0000_0000_0000 <= rest <= 0x1_0000_0000_0000_0000,
    ;
    let gain: i128 = floor_div(alpha as i128 * rest, ONE as i128);
    assert(-0x1_0000_0000_0000_0000_0000_0000 <= gain <= 0x1_0000_0000_0000_0000_0000_0000)
        by (nonlinear_arith)
        requires
            gain == (alpha * rest) / (ONE as int),
            -0x1_0000_0000_0000_0000_0000_0000 <= alpha * rest
                <= 0x1_0000_0000_0000_0000_0000_0000,
    ;
    let moved: i128 = x as i128 + gain;
    if moved < 0 {
        0
    } else if moved > ONE as i128 {
        ONE
    } else {
        moved as i64
    }
}

/// Updates the scores from new evidence of the given weight, which is
/// limited to the unit interval first. The result is always well formed; on
/// well-formed scores knowledge and eco-impact do not fall and risk does not
/// rise.
pub fn update_ker(ker: KerScore, new_evidence_weight: i64) -> (out: KerScore)
    ensures
        out == ker_after_evidence(ker, new_evidence_weight as int),
        out.well_formed(),
        ker.well_formed() ==> out.k >= ker.k && out.e >= ker.e && out.r <= ker.r,
{
    let alpha = clamp01(new_evidence_weight);
    proof {
        if ker.well_formed() {
            lemma_evidence_improves(ker.k as int, alpha as int);
            lemma_evidence_improves(ker.e as int, alpha as int);
            lemma_evidence_improves(ker.r as int, alpha as int);
        }
    }
    KerTriple {
        k: raise(ker.k, alpha),
        e: raise(ker.e, alpha),
        r: unit_product(ker.r, ONE - alpha),
    }
}

} // verus!
