//! Verified core of a 2D platformer simulation: per-tick locomotion
//! integration, melee attack resolution, actor event dispatch, NPC movement
//! heuristics, and level-progression gating.
//!
//! All continuous quantities (positions, velocities, times) are fixed-point
//! integers with 1000 sub-units per unit, so every per-tick computation is
//! exact integer arithmetic with proved overflow bounds. The surrounding
//! engine (rendering, physics queries, input devices, persistence) is an
//! external collaborator: it hands the library plain values each tick and
//! carries out the translation requests and queries the library asks for.

pub mod actor;
pub mod anim;
pub mod config;
pub mod door;
pub mod fixed;
pub mod ghost;
pub mod pickup;
pub mod player;
pub mod soul;
pub mod squash;
pub mod vec2;
pub mod world;
