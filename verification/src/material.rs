//! Surface materials whose acoustic character drives impact and contact sounds.

use vstd::prelude::*;

use crate::modal::ModePattern;

verus! {

/// A surface material with acoustic properties.
#[derive(Clone, Copy, Debug, PartialEq, Eq, Hash, Structural)]
#[non_exhaustive]
pub enum Material {
    /// Dense, bright, long sustain, high-frequency ring.
    Metal,
    /// Warm, mid-frequency resonance, medium decay.
    Wood,
    /// Hard, bright, very short decay, high-frequency crack.
    Stone,
    /// Dull, heavily damped, very short decay.
    Earth,
    /// Brittle, sharp transient, high-frequency shatter.
    Glass,
    /// Soft, damped, low-frequency thud.
    Fabric,
    /// Crisp, mid-frequency snap, moderate decay.
    Leaf,
    /// Variable resonance, depends on fill level.
    Water,
    /// Generic plastic/synthetic — moderate brightness, short decay.
    Plastic,
    /// Hollow, resonant, warm low-mid frequencies.
    Ceramic,
}

/// The mode frequency pattern a material rings with: plates for metal,
/// stone, glass and ceramic; beams for wood and leaf; heavily damped modes
/// for earth and fabric; a harmonic series for water; a stiff string for
/// plastic.
pub open spec fn material_mode_pattern(m: Material) -> ModePattern {
    match m {
        Material::Metal => ModePattern::Plate,
        Material::Wood => ModePattern::Beam,
        Material::Stone => ModePattern::Plate,
        Material::Earth => ModePattern::Damped,
        Material::Glass => ModePattern::Plate,
        Material::Fabric => ModePattern::Damped,
        Material::Leaf => ModePattern::Beam,
        Material::Water => ModePattern::Harmonic,
        Material::Plastic => ModePattern::StiffString,
        Material::Ceramic => ModePattern::Plate,
    }
}

/// The number of resonant modes a material is synthesized with.
pub open spec fn material_mode_count(m: Material) -> nat {
    match m {
        Material::Metal => 12,
        Material::Wood => 8,
        Material::Stone => 6,
        Material::Earth => 4,
        Material::Glass => 10,
        Material::Fabric => 4,
        Material::Leaf => 5,
        Material::Water => 6,
        Material::Plastic => 6,
        Material::Ceramic => 8,
    }
}

impl Material {
    /// Returns the mode frequency pattern of this material's modal
    /// configuration.
    pub fn mode_pattern(self) -> (r: ModePattern)
        ensures
            r == material_mode_pattern(self),
    {
        match self {
            Material::Metal => ModePattern::Plate,
            Material::Wood => ModePattern::Beam,
            Material::Stone => ModePattern::Plate,
            Material::Earth => ModePattern::Damped,
            Material::Glass => ModePattern::Plate,
            Material::Fabric => ModePattern::Damped,
            Material::Leaf => ModePattern::Beam,
            Material::Water => ModePattern::Harmonic,
            Material::Plastic => ModePattern::StiffString,
            Material::Ceramic => ModePattern::Plate,
        }
    }

    /// Returns the number of modes of this material's modal configuration.
    pub fn mode_count(self) -> (r: usize)
        ensures
            r == material_mode_count(self),
    {
        match self {
            Material::Metal => 12,
            Material::Wood => 8,
            Material::Stone => 6,
            Material::Earth => 4,
            Material::Glass => 10,
            Material::Fabric => 4,
            Material::Leaf => 5,
            Material::Water => 6,
            Material::Plastic => 6,
            Material::Ceramic => 8,
        }
    }
}

/// Every material rings with 4 to 12 resonant modes.
pub proof fn lemma_mode_counts_in_range(m: Material)
    ensures
        4 <= material_mode_count(m) <= 12,
{
}

} // verus!
