//! Ambient texture synthesis: the kinds of continuous environmental background.

use vstd::prelude::*;

verus! {

/// Type of ambient texture.
#[derive(Clone, Copy, Debug, PartialEq, Eq, Hash, Structural)]
#[non_exhaustive]
pub enum TextureType {
    /// Forest: birds, insects, rustling leaves, distant wind.
    Forest,
    /// City: traffic hum, distant voices, machinery.
    City,
    /// Ocean: surf, wind, seabirds.
    Ocean,
    /// Cave: drips, low resonance, silence.
    Cave,
    /// Desert: wind, sand, sparse insects.
    Desert,
    /// Night: crickets, owls, quiet wind.
    Night,
}

} // verus!
