//! Shards: the recorded states that a chain is made of.

use vstd::prelude::*;
use crate::bands::CorridorBands;
use crate::residual::{
    aggregate, aggregated, coord_under, AggregationMode, Residual, RiskCoord,
};

verus! {

/// What identifies a shard and places it in time.
#[derive(Debug, PartialEq, Eq)]
pub struct ShardHeader {
    /// The shard's identifier.
    pub shard_id: String,
    /// When the state was recorded; strictly increasing along a chain.
    pub timestamp: u64,
    /// Whether the shard's signature was found valid.
    pub didsignature_valid: bool,
}

impl Clone for ShardHeader {
    fn clone(&self) -> (r: Self)
        ensures
            r == *self,
    {
        ShardHeader {
            shard_id: self.shard_id.clone(),
            timestamp: self.timestamp,
            didsignature_valid: self.didsignature_valid,
        }
    }
}

impl Default for ShardHeader {
    fn default() -> (h: Self)
        ensures
            h.shard_id@ == Seq::<char>::empty(),
            h.timestamp == 0,
            !h.didsignature_valid,
    {
        ShardHeader { shard_id: String::new(), timestamp: 0, didsignature_valid: false }
    }
}

/// One corridor of a shard: the measured value, the band it is read under and
/// the risk that was recorded for it.
#[derive(Debug, PartialEq, Eq)]
pub struct RiskCoordEntry {
    /// The variable's identifier.
    pub varid: String,
    /// The measured value, in the band's units.
    pub measured: i64,
    /// The band of the variable.
    pub bands: CorridorBands,
    /// The risk as recorded; recomputed from `measured` whenever it counts.
    pub rx: i64,
}

impl Clone for RiskCoordEntry {
    fn clone(&self) -> (r: Self)
        ensures
            r == *self,
    {
        RiskCoordEntry {
            varid: self.varid.clone(),
            measured: self.measured,
            bands: self.bands.clone(),
            rx: self.rx,
        }
    }
}

/// The knowledge, eco-impact and risk-of-harm scores of a shard.
#[derive(Copy, Debug, PartialEq, Eq, Structural)]
pub struct KerFields {
    /// How well the state is known.
    pub knowledge_factor: i64,
    /// The ecological benefit.
    pub ecoimpact_value: i64,
    /// The risk of harm.
    pub risk_of_harm: i64,
}

impl Clone for KerFields {
    fn clone(&self) -> (r: Self)
        ensures
            r == *self,
    {
        *self
    }
}

impl KerFields {
    /// Scores are well formed when all three lie in the unit interval.
    pub open spec fn well_formed(&self) -> bool {
        &&& 0 <= self.knowledge_factor <= crate::fixed::ONE
        &&& 0 <= self.ecoimpact_value <= crate::fixed::ONE
        &&& 0 <= self.risk_of_harm <= crate::fixed::ONE
    }

    /// Whether all three scores lie in the unit interval.
    pub fn is_well_formed(&self) -> (ok: bool)
        ensures
            ok == self.well_formed(),
    {
        0 <= self.knowledge_factor && self.knowledge_factor <= crate::fixed::ONE && 0
            <= self.ecoimpact_value && self.ecoimpact_value <= crate::fixed::ONE && 0
            <= self.risk_of_harm && self.risk_of_harm <= crate::fixed::ONE
    }
}

impl Default for KerFields {
    fn default() -> (k: Self)
        ensures
            k == (KerFields { knowledge_factor: 0, ecoimpact_value: 0, risk_of_harm: 0 }),
    {
        KerFields { knowledge_factor: 0, ecoimpact_value: 0, risk_of_harm: 0 }
    }
}

/// One recorded state: header, corridors in a fixed order, and scores.
#[derive(Debug, PartialEq, Eq)]
pub struct Shard {
    /// Identity, time and signature.
    pub header: ShardHeader,
    /// The corridors, in the order in which they enter the residual.
    pub corridors: Vec<RiskCoordEntry>,
    /// The scores of the state.
    pub ker: KerFields,
}

/// The risk coordinate that an entry's measurement normalises to.
pub open spec fn coord_of(e: RiskCoordEntry) -> RiskCoord {
    coord_under(e.bands, e.measured as int)
}

/// The risk coordinates of a list of entries, in order.
pub open spec fn shard_coords(entries: Seq<RiskCoordEntry>) -> Seq<RiskCoord> {
    Seq::new(entries.len(), |i: int| coord_of(entries[i]))
}

/// Whether the band of every entry is well formed.
pub open spec fn entries_well_formed(entries: Seq<RiskCoordEntry>) -> bool {
    forall|i: int| 0 <= i < entries.len() ==> (#[trigger] entries[i]).bands.well_formed()
}

/// The residual of a shard, recomputed from its corridors: defined where
/// there is at least one corridor, every band is well formed and the value
/// can be represented.
pub open spec fn shard_residual(shard: Shard, mode: AggregationMode) -> Option<int> {
    if shard.corridors@.len() == 0 || !entries_well_formed(shard.corridors@) {
        None
    } else {
        aggregated(shard_coords(shard.corridors@), mode)
    }
}

/// Whether some entry carries the identifier `id`.
pub open spec fn has_corridor(entries: Seq<RiskCoordEntry>, id: Seq<char>) -> bool {
    exists|i: int| 0 <= i < entries.len() && (#[trigger] entries[i]).varid@ == id
}

/// Whether every required identifier is carried by some entry.
pub open spec fn required_present(required: Seq<String>, entries: Seq<RiskCoordEntry>) -> bool {
    forall|j: int| 0 <= j < required.len() ==> has_corridor(entries, (#[trigger] required[j])@)
}

/// Whether some entry carries the identifier `id`.
pub fn find_corridor(entries: &Vec<RiskCoordEntry>, id: &String) -> (found: bool)
    ensures
        found == has_corridor(entries@, id@),
{
    let mut i: usize = 0;
    while i < entries.len()
        invariant
            0 <= i <= entries.len(),
            forall|j: int| 0 <= j < i ==> (#[trigger] entries@[j]).varid@ != id@,
        decreases entries.len() - i,
    {
        if entries[i].varid == *id {
            return true;
        }
        i = i + 1;
    }
    false
}

/// Whether every required identifier is carried by some entry.
pub fn all_required_present(required: &Vec<String>, entries: &Vec<RiskCoordEntry>) -> (ok: bool)
    ensures
        ok == required_present(required@, entries@),
{
    let mut j: usize = 0;
    while j < required.len()
        invariant
            0 <= j <= required.len(),
            forall|k: int| 0 <= k < j ==> has_corridor(entries@, (#[trigger] required@[k])@),
        decreases required.len() - j,
    {
        if !find_corridor(entries, &required[j]) {
            return false;
        }
        j = j + 1;
    }
    true
}

/// Normalises the corridors of a shard and aggregates them. Nothing is
/// returned for a shard without corridors, with a defective band, or with a
/// residual that cannot be represented.
pub fn compute_shard_residual(shard: &Shard, mode: AggregationMode) -> (r: Option<Residual>)
    ensures
        r is Some <==> shard_residual(*shard, mode) is Some,
        r matches Some(res) ==> res.coords@ == shard_coords(shard.corridors@) && shard_residual(
            *shard,
            mode,
        ) == Some(res.vt as int) && res.consistent(mode),
{
    if shard.corridors.len() == 0 {
        return None;
    }
    let mut coords: Vec<RiskCoord> = Vec::new();
    let mut i: usize = 0;
    while i < shard.corridors.len()
        invariant
            0 <= i <= shard.corridors.len(),
            entries_well_formed(shard.corridors@.take(i as int)),
            coords@ == shard_coords(shard.corridors@.take(i as int)),
        decreases shard.corridors.len() - i,
    {
        let e = &shard.corridors[i];
        match RiskCoord::from_raw(e.measured, &e.bands) {
            Err(_) => {
                assert(!shard.corridors@[i as int].bands.well_formed());
                return None;
            },
            Ok(c) => {
                proof {
                    assert(c == coord_of(*e));
                    let before = shard.corridors@.take(i as int);
                    let after = shard.corridors@.take(i + 1);
                    assert(after =~= before.push(*e));
                    assert(shard_coords(after) =~= shard_coords(before).push(c));
                    assert forall|j: int| 0 <= j < after.len() implies (
                    #[trigger] after[j]).bands.well_formed() by {
                        if j < i {
                            assert(before[j].bands.well_formed());
                        }
                    }
                }
                coords.push(c);
            },
        }
        i = i + 1;
    }
    proof {
        assert(shard.corridors@.take(shard.corridors.len() as int) =~= shard.corridors@);
    }
    aggregate(coords, mode)
}

} // verus!
