//! Bird wing flap synthesis: bird size.

use vstd::prelude::*;

verus! {

/// Bird size affecting wing flap character.
#[derive(Clone, Copy, Debug, PartialEq, Eq, Hash, Structural)]
#[non_exhaustive]
pub enum BirdSize {
    /// Small bird (sparrow, finch) — fast, high-frequency flaps.
    Small,
    /// Medium bird (pigeon, crow) — moderate flaps.
    Medium,
    /// Large bird (eagle, heron) — slow, powerful whooshing flaps.
    Large,
}

} // verus!
