//! The research lines of 2026 with their scores, and the score limits a
//! line must meet before it may go into production.

use vstd::prelude::*;
use crate::ker::{KerScore, KerTriple};

verus! {

use ResearchLineId::{
    AirGlobeExhaustKernels, BiodegradableSoftRoboticNodes, CircularHardwareRefurbishment,
    EcosafetyGrammarCore, EcotechnologyWetlandsBiofilms, FlowvacBiodegradableSubstrates,
    PhoenixMarCyboquaticModules, PhoenixSitingLogisticsSoulsafety,
};

/// The eight research lines.
#[derive(Copy, Debug, PartialEq, Eq, Structural)]
pub enum ResearchLineId {
    /// The grammar of risk coordinates, residuals and step rules.
    EcosafetyGrammarCore,
    /// Modules for managed aquifer recharge.
    PhoenixMarCyboquaticModules,
    /// Wetlands and biofilms.
    EcotechnologyWetlandsBiofilms,
    /// Biodegradable soft-robotic nodes.
    BiodegradableSoftRoboticNodes,
    /// Circular hardware and refurbishment.
    CircularHardwareRefurbishment,
    /// Biodegradable substrates.
    FlowvacBiodegradableSubstrates,
    /// Exhaust kernels.
    AirGlobeExhaustKernels,
    /// Siting and logistics.
    PhoenixSitingLogisticsSoulsafety,
}

impl Clone for ResearchLineId {
    fn clone(&self) -> (r: Self)
        ensures
            r == *self,
    {
        *self
    }
}

/// The scores a band of work aims at.
#[derive(Copy, Debug, PartialEq, Eq, Structural)]
pub struct KerBandTarget {
    /// The knowledge aimed at.
    pub k_nominal: i64,
    /// The eco-impact aimed at.
    pub e_nominal: i64,
    /// The risk of harm aimed at.
    pub r_nominal: i64,
}

impl Clone for KerBandTarget {
    fn clone(&self) -> (r: Self)
        ensures
            r == *self,
    {
        *self
    }
}

/// The score limits for production.
#[derive(Copy, Debug, PartialEq, Eq, Structural)]
pub struct KerGate {
    /// The least knowledge.
    pub k_min: i64,
    /// The least eco-impact.
    pub e_min: i64,
    /// The largest risk of harm.
    pub r_max: i64,
}

impl Clone for KerGate {
    fn clone(&self) -> (r: Self)
        ensures
            r == *self,
    {
        *self
    }
}

impl KerGate {
    /// Whether scores meet the limits: knowledge and eco-impact reach their
    /// minimum and the risk stays within its maximum.
    pub open spec fn admits(self, ker: KerTriple) -> bool {
        ker.k >= self.k_min && ker.e >= self.e_min && ker.r <= self.r_max
    }

    /// Whether scores meet the limits.
    pub fn passes(&self, ker: &KerTriple) -> (ok: bool)
        ensures
            ok == self.admits(*ker),
    {
        ker.k >= self.k_min && ker.e >= self.e_min && ker.r <= self.r_max
    }
}

/// What all lines of an epoch share.
#[derive(Debug, PartialEq, Eq)]
pub struct KerMeta {
    /// The name of the epoch.
    pub epoch: String,
    /// The scores the epoch aims at.
    pub ker_band_target: KerBandTarget,
    /// The score limits for production.
    pub ker_gate_production: KerGate,
}

/// One research line with its current scores and the ones it aims at.
#[derive(Debug, PartialEq, Eq)]
pub struct ResearchLineKer {
    /// Which line it is.
    pub id: ResearchLineId,
    /// The name of the line.
    pub name: String,
    /// The current scores.
    pub ker_current: KerScore,
    /// The scores aimed at.
    pub ker_target: KerScore,
}

/// All research lines of an epoch.
#[derive(Debug, PartialEq, Eq)]
pub struct PhoenixResearchLines2026v1 {
    /// The year of the epoch.
    pub epoch: String,
    /// What the lines share.
    pub meta: KerMeta,
    /// The lines.
    pub lines: Vec<ResearchLineKer>,
}

/// Whether `line` is the line `id` with the given current and target
/// scores, in hundredths.
pub open spec fn is_line(
    line: ResearchLineKer,
    id: ResearchLineId,
    current: (int, int, int),
    target: (int, int, int),
) -> bool {
    &&& line.id == id
    &&& line.ker_current.k == current.0 * 10_000_000
    &&& line.ker_current.e == current.1 * 10_000_000
    &&& line.ker_current.r == current.2 * 10_000_000
    &&& line.ker_target.k == target.0 * 10_000_000
    &&& line.ker_target.e == target.1 * 10_000_000
    &&& line.ker_target.r == target.2 * 10_000_000
    &&& line.ker_current.well_formed()
    &&& line.ker_target.well_formed()
}

/// Whether `lines` is the canonical table of 2026.
pub open spec fn is_canonical_table(lines: Seq<ResearchLineKer>) -> bool {
    &&& lines.len() == 8
    &&& is_line(lines[0], EcosafetyGrammarCore, (94, 90, 12), (97, 93, 10))
    &&& is_line(lines[1], PhoenixMarCyboquaticModules, (93, 92, 14), (95, 93, 10))
    &&& is_line(lines[2], EcotechnologyWetlandsBiofilms, (90, 91, 15), (94, 92, 12))
    &&& is_line(lines[3], BiodegradableSoftRoboticNodes, (88, 87, 18), (93, 89, 13))
    &&& is_line(lines[4], CircularHardwareRefurbishment, (89, 88, 16), (93, 90, 13))
    &&& is_line(lines[5], FlowvacBiodegradableSubstrates, (88, 87, 18), (92, 89, 14))
    &&& is_line(lines[6], AirGlobeExhaustKernels, (96, 92, 11), (98, 94, 9))
    &&& is_line(lines[7], PhoenixSitingLogisticsSoulsafety, (93, 91, 13), (96, 93, 11))
}

fn line(id: ResearchLineId, name: &str, current: (i64, i64, i64), target: (i64, i64, i64)) -> (l:
    ResearchLineKer)
    requires
        0 <= current.0 <= 100 && 0 <= current.1 <= 100 && 0 <= current.2 <= 100,
        0 <= target.0 <= 100 && 0 <= target.1 <= 100 && 0 <= target.2 <= 100,
    ensures
        is_line(
            l,
            id,
            (current.0 as int, current.1 as int, current.2 as int),
            (target.0 as int, target.1 as int, target.2 as int),
        ),
        l.name@ == name@,
{
    ResearchLineKer {
        id,
        name: name.to_owned(),
        ker_current: KerTriple {
            k: current.0 * 10_000_000,
            e: current.1 * 10_000_000,
            r: current.2 * 10_000_000,
        },
        ker_target: KerTriple {
            k: target.0 * 10_000_000,
            e: target.1 * 10_000_000,
            r: target.2 * 10_000_000,
        },
    }
}

impl PhoenixResearchLines2026v1 {
    /// The canonical research lines of 2026, in the research-only lane: the
    /// epoch aims at the scores 0.95, 0.93 and 0.10, and the production gate
    /// asks for at least 0.90 and 0.90 and at most 0.13.
    pub fn new() -> (t: PhoenixResearchLines2026v1)
        ensures
            t.epoch@ == "2026"@,
            t.meta.epoch@ == "2026_research_only"@,
            t.meta.ker_band_target == (KerBandTarget {
                k_nominal: 950_000_000,
                e_nominal: 930_000_000,
                r_nominal: 100_000_000,
            }),
            t.meta.ker_gate_production == (KerGate {
                k_min: 900_000_000,
                e_min: 900_000_000,
                r_max: 130_000_000,
            }),
            is_canonical_table(t.lines@),
    {
        let meta = KerMeta {
            epoch: "2026_research_only".to_owned(),
            ker_band_target: KerBandTarget {
                k_nominal: 950_000_000,
                e_nominal: 930_000_000,
                r_nominal: 100_000_000,
            },
            ker_gate_production: KerGate {
                k_min: 900_000_000,
                e_min: 900_000_000,
                r_max: 130_000_000,
            },
        };
        let mut lines: Vec<ResearchLineKer> = Vec::new();
        lines.push(
            line(
                ResearchLineId::EcosafetyGrammarCore,
                "Ecosafety grammar core (rx, Vt, corridorpresent, safestep)",
                (94, 90, 12),
                (97, 93, 10),
            ),
        );
        lines.push(
            line(
                ResearchLineId::PhoenixMarCyboquaticModules,
                "Phoenix-class MAR cyboquatic modules",
                (93, 92, 14),
                (95, 93, 10),
            ),
        );
        lines.push(
            line(
                ResearchLineId::EcotechnologyWetlandsBiofilms,
                "Ecotechnology wetlands / biofilms coupling",
                (90, 91, 15),
                (94, 92, 12),
            ),
        );
        lines.push(
            line(
                ResearchLineId::BiodegradableSoftRoboticNodes,
                "Biodegradable soft-robotic cyboquatic nodes",
                (88, 87, 18),
                (93, 89, 13),
            ),
        );
        lines.push(
            line(
                ResearchLineId::CircularHardwareRefurbishment,
                "Circular hardware & refurbishment loops",
                (89, 88, 16),
                (93, 90, 13),
            ),
        );
        lines.push(
            line(
                ResearchLineId::FlowvacBiodegradableSubstrates,
                "Flowvac biodegradable substrate synthesis",
                (88, 87, 18),
                (92, 89, 14),
            ),
        );
        lines.push(
            line(
                ResearchLineId::AirGlobeExhaustKernels,
                "AirGlobe / exhaust ecosafety kernels (ESPD, Dt, KTSF)",
                (96, 92, 11),
                (98, 94, 9),
            ),
        );
        lines.push(
            line(
                ResearchLineId::PhoenixSitingLogisticsSoulsafety,
                "Phoenix siting, logistics & soulsafety planning kernels",
                (93, 91, 13),
                (96, 93, 11),
            ),
        );
        PhoenixResearchLines2026v1 { epoch: "2026".to_owned(), meta, lines }
    }

    /// The lines whose current scores pass the production gate, in the order
    /// of the table.
    pub open spec fn production_ready(&self) -> Seq<ResearchLineKer> {
        self.lines@.filter(|l: ResearchLineKer| self.meta.ker_gate_production.admits(l.ker_current))
    }

    /// The lines whose current scores already pass the production gate, in
    /// the order of the table.
    pub fn lines_meeting_production_gate(&self) -> (out: Vec<&ResearchLineKer>)
        ensures
            out@.len() == self.production_ready().len(),
            forall|i: int|
                0 <= i < out@.len() ==> *(#[trigger] out@[i]) == self.production_ready()[i],
    {
        let ghost pred = |l: ResearchLineKer| self.meta.ker_gate_production.admits(l.ker_current);
        let mut out: Vec<&ResearchLineKer> = Vec::new();
        let mut i: usize = 0;
        proof {
            reveal(Seq::filter);
            assert(self.lines@.take(0) =~= Seq::<ResearchLineKer>::empty());
        }
        while i < self.lines.len()
            invariant
                0 <= i <= self.lines.len(),
                pred == |l: ResearchLineKer| self.meta.ker_gate_production.admits(l.ker_current),
                out@.len() == self.lines@.take(i as int).filter(pred).len(),
                forall|j: int|
                    0 <= j < out@.len() ==> *(#[trigger] out@[j]) == self.lines@.take(
                        i as int,
                    ).filter(pred)[j],
            decreases self.lines.len() - i,
        {
            proof {
                reveal(Seq::filter);
                assert(self.lines@.take(i + 1).drop_last() =~= self.lines@.take(i as int));
                assert(self.lines@.take(i + 1).last() == self.lines@[i as int]);
            }
            if self.meta.ker_gate_production.passes(&self.lines[i].ker_current) {
                out.push(&self.lines[i]);
            }
            i = i + 1;
        }
        proof {
            assert(self.lines@.take(self.lines.len() as int) =~= self.lines@);
        }
        out
    }
}

} // verus!
