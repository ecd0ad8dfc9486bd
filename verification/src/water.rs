//! Water sound synthesis: the kinds of water sound.

use vstd::prelude::*;

verus! {

/// Type of water sound.
#[derive(Clone, Copy, Debug, PartialEq, Eq, Hash, Structural)]
#[non_exhaustive]
pub enum WaterType {
    /// Gentle flowing stream.
    Stream,
    /// Single water drip.
    Drip,
    /// Water splash (object entering water).
    Splash,
    /// Ocean surf / waves.
    Waves,
}

} // verus!
