//! Surf zone synthesis: surf intensity.

use vstd::prelude::*;

verus! {

/// Surf intensity affecting wave size and frequency.
#[derive(Clone, Copy, Debug, PartialEq, Eq, Hash, Structural)]
#[non_exhaustive]
pub enum SurfIntensity {
    /// Gentle lapping — small waves, long period.
    Calm,
    /// Moderate surf — regular breaking waves.
    Moderate,
    /// Heavy surf — large, powerful breakers.
    Heavy,
    /// Storm surf — continuous roar, massive waves.
    Storm,
}

} // verus!
