//! Extended precipitation synthesis: precipitation type and stone size.

use vstd::prelude::*;

verus! {

/// Type of precipitation.
#[derive(Clone, Copy, Debug, PartialEq, Eq, Hash, Structural)]
#[non_exhaustive]
pub enum PrecipitationType {
    /// Hailstones — impacts with modal resonance from surface.
    Hail,
    /// Snow — quiet, muffled crunch, very short decay.
    Snow,
    /// Rain on a specific surface — splatter varies by terrain.
    SurfaceRain,
}

/// Hail/snow stone size affecting impact character.
#[derive(Clone, Copy, Debug, PartialEq, Eq, Hash, Structural)]
#[non_exhaustive]
pub enum StoneSize {
    /// Small (pea-sized hail, light snow).
    Small,
    /// Medium (marble-sized hail, moderate snow).
    Medium,
    /// Large (golf-ball hail, heavy wet snow).
    Large,
}

} // verus!
