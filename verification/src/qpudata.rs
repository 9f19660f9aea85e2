//! Rows of the safety table: one residual with its first four coordinates
//! and the scores of the node.

use vstd::prelude::*;
use crate::residual::{Residual, RiskCoord};

verus! {

/// The stamp every row carries.
pub const ROW_HEXSTAMP: &'static str = "0x6e616e6f737761726d5f7361666574795f6b65726e656c";

/// One row of the safety table.
#[derive(Copy, Debug, PartialEq, Eq)]
pub struct QpuSafetyRow {
    /// The node's number.
    pub node_id: u32,
    /// The time of the row in milliseconds.
    pub t_ms: u64,
    /// The residual.
    pub vt: i64,
    /// The disturbance coordinate.
    pub r_tdi: i64,
    /// The biotic coordinate.
    pub r_mbi: i64,
    /// The stress coordinate.
    pub r_eis: i64,
    /// The radiation coordinate.
    pub r_rad: i64,
    /// The knowledge factor.
    pub knowledge_factor: i64,
    /// The eco-impact value.
    pub eco_impact: i64,
    /// The risk of harm.
    pub risk_of_harm: i64,
    /// The stamp of the row.
    pub hexstamp: &'static str,
}

impl Clone for QpuSafetyRow {
    fn clone(&self) -> (r: Self)
        ensures
            r == *self,
    {
        *self
    }
}

/// The risk of the coordinate at position `i`, or zero where the residual
/// has no such coordinate.
pub open spec fn risk_at(coords: Seq<RiskCoord>, i: int) -> int {
    if 0 <= i < coords.len() {
        coords[i].value as int
    } else {
        0
    }
}

fn value_at(coords: &Vec<RiskCoord>, i: usize) -> (v: i64)
    ensures
        v == risk_at(coords@, i as int),
{
    if i < coords.len() {
        coords[i].value
    } else {
        0
    }
}

/// The row of a residual: its value, its first four coordinates in the
/// order disturbance, biotic, stress, radiation, and the scores given.
/// Coordinates the residual does not have are entered as zero.
pub fn residual_to_row(node_id: u32, t_ms: u64, res: &Residual, k: i64, e: i64, r: i64) -> (row:
    QpuSafetyRow)
    ensures
        row.node_id == node_id,
        row.t_ms == t_ms,
        row.vt == res.vt,
        row.r_tdi == risk_at(res.coords@, 0),
        row.r_mbi == risk_at(res.coords@, 1),
        row.r_eis == risk_at(res.coords@, 2),
        row.r_rad == risk_at(res.coords@, 3),
        row.knowledge_factor == k,
        row.eco_impact == e,
        row.risk_of_harm == r,
        row.hexstamp@ == ROW_HEXSTAMP@,
{
    QpuSafetyRow {
        node_id,
        t_ms,
        vt: res.vt,
        r_tdi: value_at(&res.coords, 0),
        r_mbi: value_at(&res.coords, 1),
        r_eis: value_at(&res.coords, 2),
        r_rad: value_at(&res.coords, 3),
        knowledge_factor: k,
        eco_impact: e,
        risk_of_harm: r,
        hexstamp: ROW_HEXSTAMP,
    }
}

} // verus!
