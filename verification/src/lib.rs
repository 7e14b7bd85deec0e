//! Deterministic, fixed-timestep arcade simulation: a grid-based chase game
//! where one actor collects pickups while evading adversaries.
//!
//! The crate contains the simulation core only: grid queries, the
//! deterministic sequence generator, actor movement, adversary decisions,
//! the per-tick orchestration, and the frame pacer. Rendering, audio and
//! input-device plumbing are external collaborators.

pub mod adversary;
pub mod constants;
pub mod game;
pub mod game_config;
pub mod maze;
pub mod menu;
pub mod movement;
pub mod pacer;
pub mod player;
pub mod rng;
