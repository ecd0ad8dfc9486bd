//! Shared types for creature and fluid sound synthesis.

use vstd::prelude::*;

verus! {

/// Type of insect sound.
#[derive(Clone, Copy, Debug, PartialEq, Eq, Hash, Structural)]
#[non_exhaustive]
pub enum InsectType {
    /// Wing buzz — frequency-modulated vibration (bee, fly, mosquito).
    WingBuzz,
    /// Cricket chirp — stridulation (leg-on-wing friction).
    CricketChirp,
    /// Cicada drone — sustained high-frequency rattle.
    CicadaDrone,
}

/// Type of bubble sound.
#[derive(Clone, Copy, Debug, PartialEq, Eq, Hash, Structural)]
#[non_exhaustive]
pub enum BubbleType {
    /// Underwater air bubbles — rising, popping.
    Underwater,
    /// Boiling water — rapid stochastic bubbles.
    Boiling,
    /// Viscous fluid — slow, thick bubbles (lava, mud).
    Viscous,
    /// Pouring liquid — stream of small bubbles.
    Pouring,
}

} // verus!
