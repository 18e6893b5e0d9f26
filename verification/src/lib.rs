//! Tick-based tower-defense simulation engine.
//!
//! A nexus is defended from waves of enemies that walk a fixed checkpoint
//! path across a toroidal grid; player-placed towers deal periodic damage to
//! the front of the enemy queue; an economy (score, honey, lives) tracks
//! progress and defeat. Every rule of the engine is stated as a contract and
//! proved; rendering, asset loading and input handling live outside it.

pub mod config;
mod rng;
pub mod movement;
pub mod enemy;
pub mod arith;
pub mod tower;
pub mod nexus;
pub mod game;
pub mod state;
pub mod scoreboard;
pub mod player;
pub mod creature;
