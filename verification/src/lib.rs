//! # garjan — environmental and nature sound synthesis, verified core
//!
//! The discrete part of garjan: the enums that name sounds, terrains,
//! materials and quality tiers; the terrain-to-material mapping and the
//! materials' mode patterns and counts; level of detail scaling of modal
//! counts; the excitation clock that times the pulses driving modal
//! resonators; the step clock of footstep sequences; the placement of
//! stochastic events in an output buffer; the timeline of a thunderclap;
//! and the priority-based voice pool.

pub mod aero;
pub mod bridge;
pub mod contact;
pub mod creature;
pub mod error;
pub mod events;
pub mod footstep;
pub mod impact;
pub mod lod;
pub mod material;
pub mod modal;
pub mod precipitation;
pub mod surf;
pub mod texture;
pub mod underwater;
pub mod voice;
pub mod water;
pub mod weather;
pub mod wingflap;
