use vstd::prelude::*;

use crate::game::{GameError, GameModel, Player, UltimateTicTacToe, other};
use crate::messages::{BoardPos, GameUpdate};

verus! {

/// What a peer does after taking in an update.
#[derive(Debug, Copy, Clone, PartialEq, Eq, Structural)]
pub enum ClientAction {
    /// Choose a move, record it and send it.
    ChooseMove,
    /// The game is over: this side won.
    Won,
    /// The game is over: the opponent won.
    Lost,
    /// The game is over: drawn.
    Drawn,
}

/// The local copy of the game no longer follows the coordinator.
#[derive(Debug, Copy, Clone, PartialEq, Eq, Structural)]
pub enum MirrorFault {
    /// A move that the coordinator accepted was refused here.
    MoveRefused(GameError),
    /// The coordinator reported the outcome of a move that was never sent.
    NoMoveSent,
}

/// A peer's copy of the game. It changes only when the coordinator's notices
/// say that a move was accepted, and in their order.
pub struct Mirror {
    game: UltimateTicTacToe,
    identity: Player,
    sent: Option<BoardPos>,
}

/// What a mirror holds, as mathematical values.
pub struct MirrorModel {
    pub game: GameModel,
    /// The side this peer plays.
    pub identity: Player,
    /// The last move sent and not yet known to be accepted.
    pub sent: Option<BoardPos>,
}

/// `g` after `p` played `pos`, or the refusal.
pub open spec fn replay(g: GameModel, p: Player, pos: BoardPos) -> Result<GameModel, GameError> {
    match g.move_error(pos) {
        Some(e) => Err(e),
        None => Ok(g.play(p, pos)),
    }
}

impl MirrorModel {
    /// Applies this side's sent move (required or not, as `own_required` says),
    /// then the opponent's move if there is one, and answers `done`. The sent
    /// move is forgotten once applied. On a fault the moves applied before it
    /// stay.
    pub open spec fn settle(
        self,
        own_required: bool,
        theirs: Option<BoardPos>,
        done: ClientAction,
    ) -> (MirrorModel, Result<ClientAction, MirrorFault>) {
        match self.sent {
            None => if own_required {
                (self, Err(MirrorFault::NoMoveSent))
            } else {
                self.settle_theirs(theirs, done)
            },
            Some(m) => match replay(self.game, self.identity, m) {
                Err(e) => (self, Err(MirrorFault::MoveRefused(e))),
                Ok(g) => MirrorModel { game: g, sent: None, ..self }.settle_theirs(theirs, done),
            },
        }
    }

    /// Applies the opponent's move if there is one, and answers `done`.
    pub open spec fn settle_theirs(self, theirs: Option<BoardPos>, done: ClientAction) -> (
        MirrorModel,
        Result<ClientAction, MirrorFault>,
    ) {
        match theirs {
            None => (self, Ok(done)),
            Some(pos) => match replay(self.game, other(self.identity), pos) {
                Err(e) => (self, Err(MirrorFault::MoveRefused(e))),
                Ok(g) => (MirrorModel { game: g, ..self }, Ok(done)),
            },
        }
    }

    /// The mirror after an update, and what the peer does next.
    pub open spec fn take(self, u: GameUpdate) -> (MirrorModel, Result<ClientAction, MirrorFault>) {
        match u {
            GameUpdate::Start => (self, Ok(ClientAction::ChooseMove)),
            GameUpdate::BadMove => (self, Ok(ClientAction::ChooseMove)),
            GameUpdate::Move(pos) => self.settle(false, Some(pos), ClientAction::ChooseMove),
            GameUpdate::GameWon => self.settle(true, None, ClientAction::Won),
            GameUpdate::GameWonByOpponent(pos) => self.settle(true, Some(pos), ClientAction::Lost),
            GameUpdate::GameDrawn => self.settle(true, None, ClientAction::Drawn),
            GameUpdate::GameDrawnByOpponent(pos) => self.settle(
                true,
                Some(pos),
                ClientAction::Drawn,
            ),
        }
    }
}

impl View for Mirror {
    type V = MirrorModel;

    closed spec fn view(&self) -> MirrorModel {
        MirrorModel { game: self.game@, identity: self.identity, sent: self.sent }
    }
}

impl Mirror {
    /// The mirror's game is well-formed.
    pub open spec fn wf(&self) -> bool {
        self@.game.wf()
    }

    /// A fresh game seen by the side `identity`, before any move was sent.
    pub fn new(identity: Player) -> (r: Self)
        ensures
            r.wf(),
            r@ == (MirrorModel {
                game: UltimateTicTacToe::new_model(),
                identity,
                sent: None,
            }),
    {
        Mirror { game: UltimateTicTacToe::new(), identity, sent: None }
    }

    /// The game as this side sees it.
    pub fn game(&self) -> (r: &UltimateTicTacToe)
        ensures
            r@ == self@.game,
    {
        &self.game
    }

    /// The side this peer plays.
    pub fn identity(&self) -> (r: Player)
        ensures
            r == self@.identity,
    {
        self.identity
    }

    /// Remembers the move just sent, until the coordinator answers.
    pub fn record_move(&mut self, pos: BoardPos)
        ensures
            final(self)@ == (MirrorModel { sent: Some(pos), ..old(self)@ }),
    {
        self.sent = Some(pos);
    }

    fn play(&mut self, player: Player, pos: BoardPos) -> (r: Result<(), MirrorFault>)
        requires
            old(self).wf(),
        ensures
            final(self).wf(),
            match replay(old(self)@.game, player, pos) {
                Err(e) => r == Err::<(), MirrorFault>(MirrorFault::MoveRefused(e)) && final(self)@
                    == old(self)@,
                Ok(g) => r is Ok && final(self)@ == (MirrorModel { game: g, ..old(self)@ }),
            },
    {
        match self.game.place(player, pos) {
            Ok(()) => Ok(()),
            Err(e) => Err(MirrorFault::MoveRefused(e)),
        }
    }

    fn settle(&mut self, own_required: bool, theirs: Option<BoardPos>, done: ClientAction) -> (r:
        Result<ClientAction, MirrorFault>)
        requires
            old(self).wf(),
        ensures
            final(self).wf(),
            (final(self)@, r) == old(self)@.settle(own_required, theirs, done),
    {
        match self.sent {
            None => {
                if own_required {
                    return Err(MirrorFault::NoMoveSent);
                }
            },
            Some(m) => {
                let me = self.identity;
                if let Err(e) = self.play(me, m) {
                    return Err(e);
                }
                self.sent = None;
            },
        }
        match theirs {
            None => Ok(done),
            Some(pos) => {
                let them = self.identity.opponent();
                match self.play(them, pos) {
                    Err(e) => Err(e),
                    Ok(()) => Ok(done),
                }
            },
        }
    }

    /// Takes in one update from the coordinator and says what to do next.
    pub fn on_update(&mut self, u: GameUpdate) -> (r: Result<ClientAction, MirrorFault>)
        requires
            old(self).wf(),
        ensures
            final(self).wf(),
            (final(self)@, r) == old(self)@.take(u),
    {
        match u {
            GameUpdate::Start => Ok(ClientAction::ChooseMove),
            GameUpdate::BadMove => Ok(ClientAction::ChooseMove),
            GameUpdate::Move(pos) => self.settle(false, Some(pos), ClientAction::ChooseMove),
            GameUpdate::GameWon => self.settle(true, None, ClientAction::Won),
            GameUpdate::GameWonByOpponent(pos) => self.settle(true, Some(pos), ClientAction::Lost),
            GameUpdate::GameDrawn => self.settle(true, None, ClientAction::Drawn),
            GameUpdate::GameDrawnByOpponent(pos) => self.settle(
                true,
                Some(pos),
                ClientAction::Drawn,
            ),
        }
    }
}

} // verus!
