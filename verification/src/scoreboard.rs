//! The display summary of a session's economy.

use vstd::prelude::*;
use crate::state::GameState;

verus! {

/// The numeric summary shown to the player: score, lives and honey, exactly
/// as the simulation holds them. Pure presentation; the values are owned by
/// the simulation.
#[derive(Clone, Copy, PartialEq, Eq, Structural, Debug)]
pub struct ScoreBoard {
    pub score: i32,
    pub lives: i32,
    pub honey: i32,
}

impl ScoreBoard {
    /// Reads the summary off a state without changing it.
    pub fn of_state(gs: &GameState) -> (sb: ScoreBoard)
        ensures
            sb.score == gs.score,
            sb.lives == gs.lives,
            sb.honey == gs.honey,
    {
        ScoreBoard { score: gs.score, lives: gs.lives, honey: gs.honey }
    }
}

} // verus!
