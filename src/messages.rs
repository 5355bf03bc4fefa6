use vstd::prelude::*;

verus! {

/// A move as a peer submits it; every index is 1-based.
#[derive(Debug, Copy, Clone, PartialEq, Eq, Structural)]
pub enum BoardPos {
    /// Free choice: the sub-board, then the cell inside it.
    WithFocus(usize, usize),
    /// The cell inside the sub-board that the focus imposes.
    WithoutFocus(usize),
}

/// What the coordinator tells a peer.
#[derive(Debug, Copy, Clone, PartialEq, Eq, Structural)]
pub enum GameUpdate {
    /// The receiver moves first.
    Start,
    /// The opponent played this move; the receiver's previous move was accepted.
    Move(BoardPos),
    /// The receiver's last move won the game.
    GameWon,
    /// The opponent won the game with this move.
    GameWonByOpponent(BoardPos),
    /// The receiver's last move drew the game.
    GameDrawn,
    /// The opponent drew the game with this move.
    GameDrawnByOpponent(BoardPos),
    /// The receiver's last move was refused; it must choose again.
    BadMove,
}

/// An external index is legal when it lies in 1..=9.
pub open spec fn index_ok(i: usize) -> bool {
    1 <= i <= 9
}

impl BoardPos {
    /// True when some index of the move lies outside 1..=9.
    pub open spec fn illegal(&self) -> bool {
        match *self {
            BoardPos::WithFocus(f, s) => !index_ok(f) || !index_ok(s),
            BoardPos::WithoutFocus(s) => !index_ok(s),
        }
    }

    pub fn is_illegal(&self) -> (r: bool)
        ensures
            r == self.illegal(),
    {
        match *self {
            BoardPos::WithFocus(f, s) => !index_is_legal(f) || !index_is_legal(s),
            BoardPos::WithoutFocus(s) => !index_is_legal(s),
        }
    }
}

/// Whether one external index lies in 1..=9.
pub fn index_is_legal(i: usize) -> (r: bool)
    ensures
        r == index_ok(i),
{
    i != 0 && i <= 9
}

} // verus!
