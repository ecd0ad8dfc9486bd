//! Shared types for contact and surface sound synthesis.
//!
//! Enums used by the footstep, friction, rolling, foliage and creak
//! synthesizers, and the mapping from a terrain to the material that
//! rings when it is struck.

use vstd::prelude::*;

use crate::material::Material;

verus! {

/// Surface terrain type for footsteps and contact sounds.
#[derive(Clone, Copy, Debug, PartialEq, Eq, Hash, Structural)]
#[non_exhaustive]
pub enum Terrain {
    /// Loose gravel / pebbles — crunchy, broadband.
    Gravel,
    /// Sand — soft, muffled.
    Sand,
    /// Wet mud / dirt — squelchy, low.
    Mud,
    /// Snow — quiet, compressed crunch.
    Snow,
    /// Wooden floor / planks — hollow thump with resonance.
    Wood,
    /// Metal grate / plate — bright ring.
    Metal,
    /// Stone tile / ceramic — sharp clack.
    Tile,
    /// Wet hard surface — clack with splash component.
    Wet,
}

/// The material that resonates under a terrain, if any: wooden floors ring
/// as wood, metal grates as metal, tile and wet hard surfaces as ceramic;
/// loose or soft ground (gravel, sand, mud, snow) has no modal resonance.
pub open spec fn terrain_resonance(terrain: Terrain) -> Option<Material> {
    match terrain {
        Terrain::Wood => Some(Material::Wood),
        Terrain::Metal => Some(Material::Metal),
        Terrain::Tile => Some(Material::Ceramic),
        Terrain::Wet => Some(Material::Ceramic),
        _ => None,
    }
}

impl Terrain {
    /// Returns the material for modal resonance, if this terrain resonates.
    pub fn resonant_material(self) -> (r: Option<Material>)
        ensures
            r == terrain_resonance(self),
    {
        match self {
            Terrain::Wood => Some(Material::Wood),
            Terrain::Metal => Some(Material::Metal),
            Terrain::Tile => Some(Material::Ceramic),
            Terrain::Wet => Some(Material::Ceramic),
            _ => None,
        }
    }
}

/// Movement type affecting footstep timing and force.
#[derive(Clone, Copy, Debug, PartialEq, Eq, Hash, Structural)]
#[non_exhaustive]
pub enum MovementType {
    /// Normal walking pace.
    Walk,
    /// Running / jogging.
    Run,
    /// Slow, quiet sneaking.
    Sneak,
    /// Single jump landing (one-shot, no repeat).
    JumpLand,
}

/// Type of friction contact.
#[derive(Clone, Copy, Debug, PartialEq, Eq, Hash, Structural)]
#[non_exhaustive]
pub enum FrictionType {
    /// Object dragged across rough surface — chattery.
    Scrape,
    /// Smooth sliding — more tonal.
    Slide,
    /// Heavy, sustained, low-frequency grinding.
    Grind,
}

/// Type of rolling body.
#[derive(Clone, Copy, Debug, PartialEq, Eq, Hash, Structural)]
#[non_exhaustive]
pub enum RollingBody {
    /// Small ball — high rotation rate, bright.
    Ball,
    /// Medium wheel — moderate rate.
    Wheel,
    /// Large boulder — slow, heavy rumble.
    Boulder,
    /// Hollow barrel — resonant.
    Barrel,
}

/// Type of foliage sound.
#[derive(Clone, Copy, Debug, PartialEq, Eq, Hash, Structural)]
#[non_exhaustive]
pub enum FoliageType {
    /// Dry leaves rustling (wind or contact).
    LeafRustle,
    /// Tall grass brushing / swishing.
    GrassSwish,
    /// Triggered branch snap (one-shot).
    BranchSnap,
}

/// Source of creaking sound.
#[derive(Clone, Copy, Debug, PartialEq, Eq, Hash, Structural)]
#[non_exhaustive]
pub enum CreakSource {
    /// Wooden door on hinges.
    Door,
    /// Metal hinge — higher pitch.
    Hinge,
    /// Rope under tension — fibrous.
    Rope,
    /// Structural wood stress — deep.
    WoodStress,
}

} // verus!
