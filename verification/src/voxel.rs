//! Lifeforce voxels: one cell of space with its disturbance, biotic, stress
//! and radiation indices, and the envelope that the life in it needs.

use vstd::prelude::*;
use crate::bands::CorridorBands;
use crate::normalize::normalize_metric;
use crate::residual::{
    aggregate, aggregated, coord_under, AggregationMode, Residual, ResidualView, RiskCoord,
};

verus! {

/// The kind of life a safety envelope protects.
#[derive(Copy, Debug, PartialEq, Eq, Structural)]
pub enum LifeForm {
    /// Honeybees.
    Honeybee,
    /// Aquatic life.
    Aquatic,
    /// Humans.
    Human,
    /// Pets.
    Pet,
    /// Insects other than honeybees.
    Insect,
    /// No particular life form.
    Unspecified,
}

impl Clone for LifeForm {
    fn clone(&self) -> (r: Self)
        ensures
            r == *self,
    {
        *self
    }
}

/// The limits within which a voxel is safe for a life form.
#[derive(Copy, Debug, PartialEq, Eq, Structural)]
pub struct SafetyEnvelope {
    /// The life form the envelope protects.
    pub lifeform: LifeForm,
    /// The largest disturbance index.
    pub max_tdi: i64,
    /// The least biotic index.
    pub min_mbi: i64,
    /// The largest stress index.
    pub max_eis: i64,
    /// The largest radiation index.
    pub max_rad_index: i64,
    /// The largest number of ticks spent in the voxel.
    pub max_residence: u32,
}

impl Clone for SafetyEnvelope {
    fn clone(&self) -> (r: Self)
        ensures
            r == *self,
    {
        *self
    }
}

impl SafetyEnvelope {
    /// Whether the given indices and residence lie within the envelope.
    pub open spec fn admits(&self, tdi: i64, mbi: i64, eis: i64, rad: i64, residences: u32)
        -> bool {
        &&& tdi <= self.max_tdi
        &&& mbi >= self.min_mbi
        &&& eis <= self.max_eis
        &&& rad <= self.max_rad_index
        &&& residences <= self.max_residence
    }

    /// Whether the given indices and residence lie within the envelope.
    pub fn is_safe(&self, tdi: i64, mbi: i64, eis: i64, rad: i64, residences: u32) -> (ok: bool)
        ensures
            ok == self.admits(tdi, mbi, eis, rad, residences),
    {
        tdi <= self.max_tdi && mbi >= self.min_mbi && eis <= self.max_eis && rad
            <= self.max_rad_index && residences <= self.max_residence
    }
}

/// One voxel: position, indices, residence and envelope.
#[derive(Copy, Debug, PartialEq, Eq, Structural)]
pub struct Lifeforce5DVoxel {
    /// The position along the first axis.
    pub x: i64,
    /// The position along the second axis.
    pub y: i64,
    /// The position along the third axis.
    pub z: i64,
    /// The disturbance index; lower is safer.
    pub tdi: i64,
    /// The biotic index; higher is safer.
    pub mbi: i64,
    /// The stress index; lower is safer.
    pub eis: i64,
    /// The radiation index; lower is safer.
    pub rad_index: i64,
    /// The number of ticks spent in the voxel.
    pub residence: u32,
    /// The envelope of the voxel.
    pub envelope: SafetyEnvelope,
}

impl Clone for Lifeforce5DVoxel {
    fn clone(&self) -> (r: Self)
        ensures
            r == *self,
    {
        *self
    }
}

/// The capacity of the buffer that collects the risks of a voxel.
pub const RX_CAPACITY: usize = 16;

/// The fixed-capacity vector of the `heapless` crate.
#[verifier::external_type_specification]
#[verifier::external_body]
#[verifier::reject_recursive_types(T)]
pub struct ExHeaplessVec<T, const N: usize>(heapless::Vec<T, N>);

/// The risks that a buffer holds, oldest first.
pub uninterp spec fn rx_buffer_items(buffer: heapless::Vec<i64, 16>) -> Seq<i64>;

/// `heapless::Vec::new`: a new buffer holds nothing.
#[verifier::external_body]
fn rx_buffer_new() -> (buffer: heapless::Vec<i64, 16>)
    ensures
        rx_buffer_items(buffer) == Seq::<i64>::empty(),
{
    heapless::Vec::new()
}

/// `heapless::Vec::push`: while the buffer holds fewer items than its
/// capacity the item is appended at the back and the call succeeds; a full
/// buffer is left as it is and the call fails.
#[verifier::external_body]
fn rx_buffer_push(buffer: &mut heapless::Vec<i64, 16>, item: i64) -> (pushed: bool)
    ensures
        pushed == (rx_buffer_items(*old(buffer)).len() < RX_CAPACITY),
        pushed ==> rx_buffer_items(*final(buffer)) == rx_buffer_items(*old(buffer)).push(item),
        !pushed ==> rx_buffer_items(*final(buffer)) == rx_buffer_items(*old(buffer)),
{
    match buffer.push(item) {
        Ok(()) => true,
        Err(_) => false,
    }
}

/// `heapless::Vec::as_slice`, copied out: the items of the buffer, oldest
/// first.
#[verifier::external_body]
fn rx_buffer_to_vec(buffer: &heapless::Vec<i64, 16>) -> (items: Vec<i64>)
    ensures
        items@ == rx_buffer_items(*buffer),
{
    buffer.as_slice().to_vec()
}

/// The four bands of a voxel's indices, as plain values.
pub struct VoxelBands {
    /// The band of the disturbance index.
    pub tdi: CorridorBands,
    /// The band of the biotic index.
    pub mbi: CorridorBands,
    /// The band of the stress index.
    pub eis: CorridorBands,
    /// The band of the radiation index.
    pub rad: CorridorBands,
}

impl VoxelBands {
    /// Whether all four bands are well formed.
    pub open spec fn well_formed(self) -> bool {
        &&& self.tdi.well_formed()
        &&& self.mbi.well_formed()
        &&& self.eis.well_formed()
        &&& self.rad.well_formed()
    }
}

impl Lifeforce5DVoxel {
    /// The four risk coordinates of the voxel in their fixed order:
    /// disturbance, biotic, stress, radiation.
    pub open spec fn coords(&self, bands: VoxelBands) -> Seq<RiskCoord> {
        seq![
            coord_under(bands.tdi, self.tdi as int),
            coord_under(bands.mbi, self.mbi as int),
            coord_under(bands.eis, self.eis as int),
            coord_under(bands.rad, self.rad_index as int),
        ]
    }

    /// The risk state of the voxel: defined where all four bands are well
    /// formed and the linear residual of the coordinates can be
    /// represented.
    pub open spec fn risk_state(&self, bands: VoxelBands) -> Option<ResidualView> {
        if !bands.well_formed() {
            None
        } else {
            match aggregated(self.coords(bands), AggregationMode::Linear) {
                Some(v) => Some(ResidualView { vt: v, coords: self.coords(bands) }),
                None => None,
            }
        }
    }

    /// Normalises the four indices of the voxel under their bands and
    /// aggregates them into a residual. Each index is read in the direction
    /// its band declares. Nothing is returned where a band has a defect or
    /// the residual cannot be represented.
    pub fn to_risk_coords(
        &self,
        bands_tdi: &CorridorBands,
        bands_mbi: &CorridorBands,
        bands_eis: &CorridorBands,
        bands_rad: &CorridorBands,
    ) -> (r: Option<Residual>)
        ensures
            match r {
                Some(res) => Some(res@),
                None => None,
            } == self.risk_state(
                VoxelBands { tdi: *bands_tdi, mbi: *bands_mbi, eis: *bands_eis, rad: *bands_rad },
            ),
    {
        let ghost bands = VoxelBands {
            tdi: *bands_tdi,
            mbi: *bands_mbi,
            eis: *bands_eis,
            rad: *bands_rad,
        };
        let r_tdi = match normalize_metric(self.tdi, bands_tdi) {
            Ok(v) => v,
            Err(_) => {
                return None;
            },
        };
        let r_mbi = match normalize_metric(self.mbi, bands_mbi) {
            Ok(v) => v,
            Err(_) => {
                return None;
            },
        };
        let r_eis = match normalize_metric(self.eis, bands_eis) {
            Ok(v) => v,
            Err(_) => {
                return None;
            },
        };
        let r_rad = match normalize_metric(self.rad_index, bands_rad) {
            Ok(v) => v,
            Err(_) => {
                return None;
            },
        };
        let mut rx = rx_buffer_new();
        let _ = rx_buffer_push(&mut rx, r_tdi);
        let _ = rx_buffer_push(&mut rx, r_mbi);
        let _ = rx_buffer_push(&mut rx, r_eis);
        let _ = rx_buffer_push(&mut rx, r_rad);
        let values = rx_buffer_to_vec(&rx);
        assert(values@ =~= seq![r_tdi, r_mbi, r_eis, r_rad]);
        let mut coords: Vec<RiskCoord> = Vec::new();
        coords.push(RiskCoord { value: values[0], sigma: 0, bands: bands_tdi.clone() });
        coords.push(RiskCoord { value: values[1], sigma: 0, bands: bands_mbi.clone() });
        coords.push(RiskCoord { value: values[2], sigma: 0, bands: bands_eis.clone() });
        coords.push(RiskCoord { value: values[3], sigma: 0, bands: bands_rad.clone() });
        assert(coords@ =~= self.coords(bands));
        aggregate(coords, AggregationMode::Linear)
    }
}

} // verus!
