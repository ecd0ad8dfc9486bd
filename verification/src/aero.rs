//! Shared types for aerodynamic sound synthesis.

use vstd::prelude::*;

verus! {

/// Type of whoosh sound.
#[derive(Clone, Copy, Debug, PartialEq, Eq, Hash, Structural)]
#[non_exhaustive]
pub enum WhooshType {
    /// Short arc (sword swing, bat, whip).
    Swing,
    /// Fast, narrow pass-by (arrow, bullet).
    Projectile,
    /// Long, broad pass-by (vehicle, large object).
    Vehicle,
    /// Medium arc (thrown ball, stone).
    Throw,
}

/// Source of wind whistling.
#[derive(Clone, Copy, Debug, PartialEq, Eq, Hash, Structural)]
#[non_exhaustive]
pub enum WhistleSource {
    /// Thin crack or gap — high, reedy whistle.
    Gap,
    /// Tube or pipe resonance — clear, tonal.
    Pipe,
    /// Helmholtz resonator (bottle) — low, hollow.
    Bottle,
    /// Wire or cable (aeolian tone) — thin, singing.
    Wire,
}

/// Type of cloth / fabric.
#[derive(Clone, Copy, Debug, PartialEq, Eq, Hash, Structural)]
#[non_exhaustive]
pub enum ClothType {
    /// Flag — rhythmic, speed-dependent period.
    Flag,
    /// Cape — irregular, character-driven.
    Cape,
    /// Sail — heavy, slow, powerful.
    Sail,
    /// Tarp — stiff, loud, sharp.
    Tarp,
}

} // verus!
