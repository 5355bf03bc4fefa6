use vstd::prelude::*;

use crate::game::Player;

verus! {

/// Why the meta engine refused a move.
#[derive(Debug, Copy, Clone, PartialEq, Eq, Structural)]
pub enum GameError {
    /// The move's shape does not match the focus mode: a free choice came while a
    /// sub-board was imposed, or the other way round.
    IncorrectInputVariant,
    /// An index of the move lies outside 1..=9.
    IllegalIndex,
    /// The addressed sub-board is already finished.
    SquareNotOpen,
    /// The addressed cell already holds this player's mark.
    SquareNotEmpty(Player),
    /// The whole game is already finished.
    GameOver,
}

} // verus!
