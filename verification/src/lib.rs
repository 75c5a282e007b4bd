//! Combat-resolution core of a fighting-game engine.
//!
//! Given the geometric pose of every fighter on a frame, the library decides
//! which attacks connect, which are blocked by shields, which clash against
//! each other and which grabs land, producing a per-player list of collision
//! outcomes for downstream state update.
//!
//! All geometry is carried in fixed-point centiunits: one unit of the game
//! world is 100 centiunits, so the phantom near-miss tolerance of 0.01 units
//! is exactly 1. Overlap tests compare squared distances, which keeps every
//! classification exact.

pub mod catalog;
pub mod collision;
pub mod fighter;
pub mod laws;
pub mod player;
pub mod stage;
pub mod state;
