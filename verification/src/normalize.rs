//! The normaliser: from a raw measurement and its corridor band to a risk
//! coordinate between 0 and 1.

use vstd::prelude::*;
use crate::bands::{BandError, CorridorBands, Polarity};
use crate::fixed::{lemma_share_bounds, lemma_share_monotonic, share, share_of, ONE};

verus! {

/// The risk of `raw` where lower is safer: 0 up to `safe`, 1 from `hard` on,
/// and the linear share of the way from `safe` to `hard` in between.
pub open spec fn rising_risk(raw: int, safe: int, hard: int) -> int {
    if raw <= safe {
        0
    } else if raw >= hard {
        ONE as int
    } else {
        share(raw - safe, hard - safe)
    }
}

/// The risk of `raw` where higher is safer: 0 from `safe` on, 1 down to
/// `hard`, and the linear share of the way from `safe` down to `hard` in
/// between.
pub open spec fn falling_risk(raw: int, safe: int, hard: int) -> int {
    if raw >= safe {
        0
    } else if raw <= hard {
        ONE as int
    } else {
        share(safe - raw, safe - hard)
    }
}

impl CorridorBands {
    /// The risk coordinate of `raw` under this band.
    pub open spec fn risk_of(&self, raw: int) -> int {
        match self.polarity {
            Polarity::LowerIsSafer => rising_risk(raw, self.safe as int, self.hard as int),
            Polarity::HigherIsSafer => falling_risk(raw, self.safe as int, self.hard as int),
        }
    }
}

/// A rising risk lies in the unit interval and never falls as the raw value
/// grows.
pub proof fn lemma_rising_risk(a: int, b: int, safe: int, hard: int)
    requires
        a <= b,
    ensures
        0 <= rising_risk(a, safe, hard) <= rising_risk(b, safe, hard) <= ONE,
{
    if safe < a && a < hard {
        lemma_share_bounds(a - safe, hard - safe);
    }
    if safe < b && b < hard {
        lemma_share_bounds(b - safe, hard - safe);
    }
    if safe < a && b < hard {
        lemma_share_monotonic(a - safe, b - safe, hard - safe);
    }
}

/// A falling risk lies in the unit interval and never grows as the raw value
/// grows.
pub proof fn lemma_falling_risk(a: int, b: int, safe: int, hard: int)
    requires
        a <= b,
    ensures
        0 <= falling_risk(b, safe, hard) <= falling_risk(a, safe, hard) <= ONE,
{
    if hard < a && a < safe {
        lemma_share_bounds(safe - a, safe - hard);
    }
    if hard < b && b < safe {
        lemma_share_bounds(safe - b, safe - hard);
    }
    if hard < a && b < safe {
        lemma_share_monotonic(safe - b, safe - a, safe - hard);
    }
}

/// Every risk coordinate lies between 0 and 1, both included.
pub proof fn lemma_risk_in_unit_interval(bands: CorridorBands, raw: int)
    ensures
        0 <= bands.risk_of(raw) <= ONE,
{
    lemma_rising_risk(raw, raw, bands.safe as int, bands.hard as int);
    lemma_falling_risk(raw, raw, bands.safe as int, bands.hard as int);
}

/// The risk is monotonic in the raw value, in the direction the polarity
/// gives: it never falls with a growing raw value where lower is safer, and
/// never grows where higher is safer.
pub proof fn lemma_risk_monotonic(bands: CorridorBands, a: int, b: int)
    requires
        a <= b,
    ensures
        bands.polarity == Polarity::LowerIsSafer ==> bands.risk_of(a) <= bands.risk_of(b),
        bands.polarity == Polarity::HigherIsSafer ==> bands.risk_of(a) >= bands.risk_of(b),
{
    lemma_rising_risk(a, b, bands.safe as int, bands.hard as int);
    lemma_falling_risk(a, b, bands.safe as int, bands.hard as int);
}

/// At the safe threshold the risk is exactly 0 and at the hard threshold it
/// is exactly 1.
pub proof fn lemma_risk_at_thresholds(bands: CorridorBands)
    requires
        bands.well_formed(),
    ensures
        bands.risk_of(bands.safe as int) == 0,
        bands.risk_of(bands.hard as int) == ONE,
{
}

/// The rising risk of `raw` between `safe` and `hard`.
pub fn rising(raw: i64, safe: i64, hard: i64) -> (r: i64)
    ensures
        r == rising_risk(raw as int, safe as int, hard as int),
        0 <= r <= ONE,
{
    if raw <= safe {
        0
    } else if raw >= hard {
        ONE
    } else {
        share_of(raw as i128 - safe as i128, hard as i128 - safe as i128)
    }
}

/// The falling risk of `raw` between `safe` and `hard`.
pub fn falling(raw: i64, safe: i64, hard: i64) -> (r: i64)
    ensures
        r == falling_risk(raw as int, safe as int, hard as int),
        0 <= r <= ONE,
{
    if raw >= safe {
        0
    } else if raw <= hard {
        ONE
    } else {
        share_of(safe as i128 - raw as i128, safe as i128 - hard as i128)
    }
}

/// Normalises `x` under `bands`. A band with a defect is rejected with that
/// defect; otherwise the result is the band's risk coordinate of `x`.
pub fn normalize_metric(x: i64, bands: &CorridorBands) -> (r: Result<i64, BandError>)
    ensures
        r is Ok <==> bands.well_formed(),
        r matches Ok(v) ==> v == bands.risk_of(x as int) && 0 <= v <= ONE && (x == bands.safe
            ==> v == 0) && (x == bands.hard ==> v == ONE),
        r matches Err(e) ==> bands.defect() == Some(e),
{
    match bands.validate() {
        Err(e) => Err(e),
        Ok(()) => {
            let v = match bands.polarity {
                Polarity::LowerIsSafer => rising(x, bands.safe, bands.hard),
                Polarity::HigherIsSafer => falling(x, bands.safe, bands.hard),
            };
            Ok(v)
        },
    }
}

} // verus!
