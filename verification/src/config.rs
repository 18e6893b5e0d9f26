//! Fixed parameters of the simulation.

use vstd::prelude::*;

verus! {

/// Width of the toroidal playing grid, in cells.
pub const GRID_WIDTH: i16 = 64;

/// Height of the toroidal playing grid, in cells.
pub const GRID_HEIGHT: i16 = 64;

/// A new enemy is spawned on every tick whose counter is a multiple of this
/// period (tick 0 included).
pub const SPAWN_PERIOD: i32 = 7;

/// The difficulty scalar grows by one on every tick whose counter is a
/// positive multiple of this period.
pub const ESCALATION_PERIOD: i32 = 70;

/// Ceiling kept on the difficulty scalar so that every reward product
/// (`hardness * noise`, noise below 130) and every spawn-health product
/// (`multiplier * percent + additive`, percent below 110) stays within `i32`.
pub const HARDNESS_CAP: i32 = 16_000_000;

/// Lives at the start of a session.
pub const STARTING_LIVES: i32 = 3;

/// Bounds of the default nexus region: one cell around the last checkpoint
/// of the enemy path, bounds inclusive.
pub const NEXUS_MIN_X: i16 = 13;

pub const NEXUS_MIN_Y: i16 = 17;

pub const NEXUS_MAX_X: i16 = 15;

pub const NEXUS_MAX_Y: i16 = 19;

/// Currency ("honey") at the start of a session.
pub const STARTING_HONEY: i32 = 100;

} // verus!
