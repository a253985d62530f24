//! Core of a small vertical arcade shooter: the per-tick simulation of a player
//! ship, enemy ships and their bullets inside a bounded arena.
//!
//! All geometry is integer fixed-point: one arena unit is [`config::SUBUNITS`]
//! sub-units, and a speed is the number of sub-units moved in one tick.

pub mod config;
pub mod geometry;
pub mod components;
pub mod state;
mod random;
pub mod census;
pub mod world;
pub mod movement;
pub mod collision;
pub mod spawner;
pub mod tick;
pub mod laws;
