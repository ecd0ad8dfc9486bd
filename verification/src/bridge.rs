//! Bridges from physical simulation outputs to synthesis parameters: the
//! discrete part of the severe-weather mapping.

use vstd::prelude::*;

use crate::weather::RainIntensity;

verus! {

/// The rain that goes with a severe weather threat level (0 none,
/// 1 marginal, 2 slight, 3 enhanced, 4 moderate, 5 high; anything above 5
/// counts as high): no rain up to marginal, then moderate, heavy, and
/// torrential rain from moderate threat on.
pub open spec fn threat_rain(level: u8) -> Option<RainIntensity> {
    if level <= 1 {
        None
    } else if level == 2 {
        Some(RainIntensity::Moderate)
    } else if level == 3 {
        Some(RainIntensity::Heavy)
    } else {
        Some(RainIntensity::Torrential)
    }
}

/// Rank of a rain intensity, lightest first.
pub open spec fn rain_rank(r: Option<RainIntensity>) -> nat {
    match r {
        None => 0,
        Some(RainIntensity::Light) => 1,
        Some(RainIntensity::Moderate) => 2,
        Some(RainIntensity::Heavy) => 3,
        Some(RainIntensity::Torrential) => 4,
    }
}

/// Returns the rain intensity for a severe weather threat level.
pub fn threat_rain_intensity(level: u8) -> (r: Option<RainIntensity>)
    ensures
        r == threat_rain(level),
{
    match level {
        0 | 1 => None,
        2 => Some(RainIntensity::Moderate),
        3 => Some(RainIntensity::Heavy),
        _ => Some(RainIntensity::Torrential),
    }
}

/// A higher threat level never brings lighter rain.
pub proof fn lemma_threat_rain_monotone(a: u8, b: u8)
    requires
        a <= b,
    ensures
        rain_rank(threat_rain(a)) <= rain_rank(threat_rain(b)),
{
}

} // verus!
