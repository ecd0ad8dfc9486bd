//! Underwater ambience synthesis: listening depth.

use vstd::prelude::*;

verus! {

/// Depth affecting underwater character.
#[derive(Clone, Copy, Debug, PartialEq, Eq, Hash, Structural)]
#[non_exhaustive]
pub enum UnderwaterDepth {
    /// Shallow (just submerged) — more surface noise, brighter.
    Shallow,
    /// Medium depth — balanced, some surface rumble.
    Medium,
    /// Deep — very muffled, pressure rumble, sparse bubbles.
    Deep,
}

} // verus!
