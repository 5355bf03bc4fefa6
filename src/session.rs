use vstd::prelude::*;

use crate::game::{GameModel, GameState, Player, UltimateTicTacToe, other};
use crate::messages::{BoardPos, GameUpdate};

verus! {

/// An update addressed to one side.
#[derive(Debug, Copy, Clone, PartialEq, Eq, Structural)]
pub struct Notice {
    pub to: Player,
    pub update: GameUpdate,
}

/// The coordinator's decisions for one game between two connected sides. The
/// first connection plays X and moves first; the caller reads the next move
/// from the side whose turn it is and delivers the notices it is handed back.
pub struct Session {
    game: UltimateTicTacToe,
    turn: Player,
}

/// What a session holds, as mathematical values.
pub struct SessionModel {
    pub game: GameModel,
    /// The side whose move is awaited.
    pub turn: Player,
}

impl SessionModel {
    /// Whether the game has ended, so that the session is over.
    pub open spec fn over(self) -> bool {
        self.game.game_state != GameState::Ongoing
    }

    /// The session after the side whose turn it is submitted `pos`, and the
    /// notices to deliver, in order. A refused move goes back to the same side
    /// as `BadMove`; an accepted one is played, then the turn passes, or both
    /// sides learn the end of the game. Once the game is over nothing happens.
    pub open spec fn step(self, pos: BoardPos) -> (SessionModel, Seq<Notice>) {
        let me = self.turn;
        let them = other(me);
        if self.over() {
            (self, Seq::empty())
        } else if self.game.move_error(pos) is Some {
            (self, seq![Notice { to: me, update: GameUpdate::BadMove }])
        } else {
            let g = self.game.play(me, pos);
            match g.game_state {
                GameState::Ongoing => (
                    SessionModel { game: g, turn: them },
                    seq![Notice { to: them, update: GameUpdate::Move(pos) }],
                ),
                GameState::Won(_) => (
                    SessionModel { game: g, turn: me },
                    seq![
                        Notice { to: me, update: GameUpdate::GameWon },
                        Notice { to: them, update: GameUpdate::GameWonByOpponent(pos) },
                    ],
                ),
                GameState::Drawn => (
                    SessionModel { game: g, turn: me },
                    seq![
                        Notice { to: me, update: GameUpdate::GameDrawn },
                        Notice { to: them, update: GameUpdate::GameDrawnByOpponent(pos) },
                    ],
                ),
            }
        }
    }
}

impl View for Session {
    type V = SessionModel;

    closed spec fn view(&self) -> SessionModel {
        SessionModel { game: self.game@, turn: self.turn }
    }
}

/// How many failed attempts to accept a connection abort the start of a
/// session.
pub const ACCEPT_ERROR_LIMIT: usize = 10;

/// Whether `failures` failed attempts to accept a connection abort the start.
pub fn accept_gives_up(failures: usize) -> (r: bool)
    ensures
        r == (failures >= ACCEPT_ERROR_LIMIT),
{
    failures >= ACCEPT_ERROR_LIMIT
}

/// The side a connection plays: the first accepted connection is X, the
/// second O.
pub fn identity_of_connection(first: bool) -> (r: Player)
    ensures
        r == (if first {
            Player::Ex
        } else {
            Player::Oh
        }),
{
    if first {
        Player::Ex
    } else {
        Player::Oh
    }
}

impl Session {
    /// The session's game is well-formed.
    pub open spec fn wf(&self) -> bool {
        self@.game.wf()
    }

    /// A fresh game in which X moves first.
    pub fn new() -> (r: Self)
        ensures
            r.wf(),
            r@.game == UltimateTicTacToe::new_model(),
            r@.turn == Player::Ex,
    {
        Session { game: UltimateTicTacToe::new(), turn: Player::Ex }
    }

    /// The notice that invites the first side to move.
    pub fn opening(&self) -> (r: Notice)
        ensures
            r == (Notice { to: self@.turn, update: GameUpdate::Start }),
    {
        Notice { to: self.turn, update: GameUpdate::Start }
    }

    /// The side whose move is awaited.
    pub fn turn(&self) -> (r: Player)
        ensures
            r == self@.turn,
    {
        self.turn
    }

    /// Whether the game has ended.
    pub fn is_over(&self) -> (r: bool)
        ensures
            r == self@.over(),
    {
        self.game.game_state() != GameState::Ongoing
    }

    /// The game as the coordinator holds it.
    pub fn game(&self) -> (r: &UltimateTicTacToe)
        ensures
            r@ == self@.game,
    {
        &self.game
    }

    /// Handles the move that the side whose turn it is submitted, and returns
    /// the notices to deliver, in order.
    pub fn submit(&mut self, pos: BoardPos) -> (r: Vec<Notice>)
        requires
            old(self).wf(),
        ensures
            final(self).wf(),
            (final(self)@, r@) == old(self)@.step(pos),
    {
        let me = self.turn;
        let them = me.opponent();
        if self.game.game_state() != GameState::Ongoing {
            return Vec::new();
        }
        if !self.game.move_is_valid(pos) {
            return vec![Notice { to: me, update: GameUpdate::BadMove }];
        }
        let _ = self.game.place(me, pos);
        match self.game.game_state() {
            GameState::Ongoing => {
                self.turn = them;
                vec![Notice { to: them, update: GameUpdate::Move(pos) }]
            },
            GameState::Won(_) => vec![
                Notice { to: me, update: GameUpdate::GameWon },
                Notice { to: them, update: GameUpdate::GameWonByOpponent(pos) },
            ],
            GameState::Drawn => vec![
                Notice { to: me, update: GameUpdate::GameDrawn },
                Notice { to: them, update: GameUpdate::GameDrawnByOpponent(pos) },
            ],
        }
    }
}

} // verus!
