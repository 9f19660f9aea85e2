//! Corridor bands: the configuration of one monitored variable.

use vstd::prelude::*;

verus! {

/// The direction in which a raw value becomes safer.
#[derive(Copy, Debug, PartialEq, Eq, Structural)]
pub enum Polarity {
    /// Small raw values are safe; the hard threshold lies above the safe one.
    LowerIsSafer,
    /// Large raw values are safe; the hard threshold lies below the safe one.
    HigherIsSafer,
}

impl Clone for Polarity {
    fn clone(&self) -> (r: Self)
        ensures
            r == *self,
    {
        *self
    }
}

/// What makes a band unusable as configuration.
#[derive(Copy, Debug, PartialEq, Eq, Structural)]
pub enum BandError {
    /// The safe and the hard threshold coincide, so there is nothing to
    /// interpolate over.
    EqualThresholds,
    /// The thresholds are ordered against the declared polarity.
    PolarityMismatch,
    /// The weight is negative.
    NegativeWeight,
}

impl Clone for BandError {
    fn clone(&self) -> (r: Self)
        ensures
            r == *self,
    {
        *self
    }
}

impl BandError {
    /// A short description of the defect.
    pub fn message(&self) -> (s: String)
        ensures
            s@ == match *self {
                BandError::EqualThresholds => "safe and hard thresholds coincide"@,
                BandError::PolarityMismatch => "thresholds contradict the polarity"@,
                BandError::NegativeWeight => "weight is negative"@,
            },
    {
        match self {
            BandError::EqualThresholds => "safe and hard thresholds coincide".to_owned(),
            BandError::PolarityMismatch => "thresholds contradict the polarity".to_owned(),
            BandError::NegativeWeight => "weight is negative".to_owned(),
        }
    }
}

/// The corridor of one monitored variable: thresholds in the variable's own
/// units, its weight in the residual, and how it is to be read.
#[derive(Debug, PartialEq, Eq)]
pub struct CorridorBands {
    /// The variable's identifier, unique within a corridor set.
    pub var_id: String,
    /// The unit the thresholds are given in.
    pub units: String,
    /// The edge of the comfortable band; maps to risk 0.
    pub safe: i64,
    /// The regulatory or scientific target between safe and hard.
    pub gold: i64,
    /// The never-exceed limit; maps to risk 1.
    pub hard: i64,
    /// The variable's weight in the residual.
    pub weight_w: i64,
    /// The largest risk that still counts as the safe interior.
    pub safe_rx: i64,
    /// The residual channel the variable belongs to.
    pub lyap_channel: u16,
    /// Which direction is safer.
    pub polarity: Polarity,
    /// Whether a corridor set is incomplete without this variable.
    pub mandatory: bool,
}

impl Clone for CorridorBands {
    fn clone(&self) -> (r: Self)
        ensures
            r == *self,
    {
        CorridorBands {
            var_id: self.var_id.clone(),
            units: self.units.clone(),
            safe: self.safe,
            gold: self.gold,
            hard: self.hard,
            weight_w: self.weight_w,
            safe_rx: self.safe_rx,
            lyap_channel: self.lyap_channel,
            polarity: self.polarity,
            mandatory: self.mandatory,
        }
    }
}

/// The polarity that a pair of thresholds suggests.
pub open spec fn polarity_of(safe: int, hard: int) -> Polarity {
    if safe <= hard {
        Polarity::LowerIsSafer
    } else {
        Polarity::HigherIsSafer
    }
}

impl CorridorBands {
    /// The first defect of the band, if it has one.
    pub open spec fn defect(&self) -> Option<BandError> {
        if self.safe == self.hard {
            Some(BandError::EqualThresholds)
        } else if self.polarity != polarity_of(self.safe as int, self.hard as int) {
            Some(BandError::PolarityMismatch)
        } else if self.weight_w < 0 {
            Some(BandError::NegativeWeight)
        } else {
            None
        }
    }

    /// A band is well formed when its thresholds differ, are ordered as its
    /// polarity says, and its weight is not negative.
    pub open spec fn well_formed(&self) -> bool {
        &&& self.safe != self.hard
        &&& self.polarity == Polarity::LowerIsSafer ==> self.safe < self.hard
        &&& self.polarity == Polarity::HigherIsSafer ==> self.safe > self.hard
        &&& self.weight_w >= 0
    }

    /// A band from its thresholds. The polarity is read off the thresholds
    /// and the safe interior defaults to the safe threshold.
    pub fn new(
        var_id: &str,
        units: &str,
        safe: i64,
        gold: i64,
        hard: i64,
        weight_w: i64,
        lyap_channel: u16,
        mandatory: bool,
    ) -> (b: CorridorBands)
        ensures
            b.var_id@ == var_id@,
            b.units@ == units@,
            b.safe == safe,
            b.gold == gold,
            b.hard == hard,
            b.weight_w == weight_w,
            b.safe_rx == safe,
            b.lyap_channel == lyap_channel,
            b.polarity == polarity_of(safe as int, hard as int),
            b.mandatory == mandatory,
            b.well_formed() <==> safe != hard && weight_w >= 0,
    {
        let polarity = if safe <= hard {
            Polarity::LowerIsSafer
        } else {
            Polarity::HigherIsSafer
        };
        CorridorBands {
            var_id: var_id.to_owned(),
            units: units.to_owned(),
            safe,
            gold,
            hard,
            weight_w,
            safe_rx: safe,
            lyap_channel,
            polarity,
            mandatory,
        }
    }

    /// The same band with another safe-interior threshold.
    pub fn with_safe_interior(self, safe_rx: i64) -> (b: CorridorBands)
        ensures
            b == (CorridorBands { safe_rx, ..self }),
    {
        let mut b = self;
        b.safe_rx = safe_rx;
        b
    }

    /// Checks the band and names its first defect.
    pub fn validate(&self) -> (r: Result<(), BandError>)
        ensures
            r is Ok <==> self.well_formed(),
            r matches Err(e) ==> self.defect() == Some(e),
    {
        if self.safe == self.hard {
            return Err(BandError::EqualThresholds);
        }
        let ordered = match self.polarity {
            Polarity::LowerIsSafer => self.safe < self.hard,
            Polarity::HigherIsSafer => self.safe > self.hard,
        };
        if !ordered {
            return Err(BandError::PolarityMismatch);
        }
        if self.weight_w < 0 {
            return Err(BandError::NegativeWeight);
        }
        Ok(())
    }

    /// Whether the band is usable as configuration.
    pub fn is_well_formed(&self) -> (ok: bool)
        ensures
            ok == self.well_formed(),
    {
        self.validate().is_ok()
    }
}

/// Whether every band of a corridor set is well formed.
pub open spec fn all_bands_well_formed(bands: Seq<CorridorBands>) -> bool {
    forall|i: int| 0 <= i < bands.len() ==> (#[trigger] bands[i]).well_formed()
}

/// Checks a whole corridor set at load time and reports the first defect in
/// list order.
pub fn validate_corridors(bands: &Vec<CorridorBands>) -> (r: Result<(), BandError>)
    ensures
        r is Ok <==> all_bands_well_formed(bands@),
        r matches Err(e) ==> exists|i: int|
            0 <= i < bands.len() && (#[trigger] bands[i]).defect() == Some(e)
                && all_bands_well_formed(bands@.take(i)),
{
    let mut i: usize = 0;
    while i < bands.len()
        invariant
            0 <= i <= bands.len(),
            all_bands_well_formed(bands@.take(i as int)),
        decreases bands.len() - i,
    {
        match bands[i].validate() {
            Ok(()) => {},
            Err(e) => {
                assert(!bands[i as int].well_formed());
                return Err(e);
            },
        }
        assert(bands@.take(i + 1) =~= bands@.take(i as int).push(bands[i as int]));
        i = i + 1;
    }
    assert(bands@.take(bands.len() as int) =~= bands@);
    Ok(())
}

} // verus!
