use vstd::prelude::*;

pub use crate::game_error::GameError;
use crate::messages::BoardPos;

verus! {

/// One of the two sides.
#[derive(Debug, Copy, Clone, PartialEq, Eq, Structural)]
pub enum Player {
    Ex,
    Oh,
}

/// The outcome of a board, as far as it is known.
#[derive(Debug, Copy, Clone, PartialEq, Eq, Structural)]
pub enum GameState {
    Ongoing,
    Won(Player),
    Drawn,
}

/// What a square of a 3x3 grid reports to the evaluator.
#[derive(Debug, Copy, Clone, PartialEq, Eq, Structural)]
pub enum SquareState {
    /// Marked by a player.
    Marked(Player),
    /// Occupied by nobody and no longer playable.
    Closed,
    /// Still open to be marked.
    Empty,
}

/// The cells of winning line `k` (rows, then columns, then the two diagonals),
/// as indices 0..9 read row by row.
pub open spec fn line(k: int) -> (int, int, int) {
    if k == 0 {
        (0, 1, 2)
    } else if k == 1 {
        (3, 4, 5)
    } else if k == 2 {
        (6, 7, 8)
    } else if k == 3 {
        (0, 3, 6)
    } else if k == 4 {
        (1, 4, 7)
    } else if k == 5 {
        (2, 5, 8)
    } else if k == 6 {
        (0, 4, 8)
    } else {
        (2, 4, 6)
    }
}

/// All three squares of line `k` are marked by `p`.
pub open spec fn line_won(sq: Seq<SquareState>, k: int, p: Player) -> bool {
    &&& sq[line(k).0] == SquareState::Marked(p)
    &&& sq[line(k).1] == SquareState::Marked(p)
    &&& sq[line(k).2] == SquareState::Marked(p)
}

/// Some winning line is all marked by `p`.
pub open spec fn won_by(sq: Seq<SquareState>, p: Player) -> bool {
    exists|k: int| 0 <= k < 8 && #[trigger] line_won(sq, k, p)
}

/// No square is still open.
pub open spec fn is_full(sq: Seq<SquareState>) -> bool {
    forall|i: int| 0 <= i < 9 ==> sq[i] != SquareState::Empty
}

/// The state of a 3x3 grid: X's win is checked before O's, then fullness.
pub open spec fn eval_squares(sq: Seq<SquareState>) -> GameState {
    if won_by(sq, Player::Ex) {
        GameState::Won(Player::Ex)
    } else if won_by(sq, Player::Oh) {
        GameState::Won(Player::Oh)
    } else if is_full(sq) {
        GameState::Drawn
    } else {
        GameState::Ongoing
    }
}

/// Neither player holds a winning line.
pub open spec fn single_winner(sq: Seq<SquareState>) -> bool {
    !(won_by(sq, Player::Ex) && won_by(sq, Player::Oh))
}

/// What a plain cell reports.
pub open spec fn mark_state(c: Option<Player>) -> SquareState {
    match c {
        Some(p) => SquareState::Marked(p),
        None => SquareState::Empty,
    }
}

/// What a sub-board reports once seen as one square of the meta-board.
pub open spec fn board_state(g: GameState) -> SquareState {
    match g {
        GameState::Ongoing => SquareState::Empty,
        GameState::Won(p) => SquareState::Marked(p),
        GameState::Drawn => SquareState::Closed,
    }
}

/// The squares of an ordinary board.
pub open spec fn cell_squares(cells: Seq<Option<Player>>) -> Seq<SquareState> {
    cells.map_values(|c: Option<Player>| mark_state(c))
}

/// The squares of the meta-board, from its sub-boards' states.
pub open spec fn meta_squares(states: Seq<GameState>) -> Seq<SquareState> {
    states.map_values(|g: GameState| board_state(g))
}

/// The state of an ordinary board with these cells.
pub open spec fn eval_cells(cells: Seq<Option<Player>>) -> GameState {
    eval_squares(cell_squares(cells))
}

/// The state of the meta-board whose sub-boards are in these states.
pub open spec fn eval_meta(states: Seq<GameState>) -> GameState {
    eval_squares(meta_squares(states))
}

/// Something that can stand as one square of a 3x3 grid.
pub trait TTTSquare {
    spec fn square_state(&self) -> SquareState;

    fn state(&self) -> (r: SquareState)
        ensures
            r == self.square_state(),
    ;
}

impl TTTSquare for Option<Player> {
    open spec fn square_state(&self) -> SquareState {
        mark_state(*self)
    }

    fn state(&self) -> (r: SquareState) {
        match *self {
            Some(p) => SquareState::Marked(p),
            None => SquareState::Empty,
        }
    }
}

/// The cells of winning line `k`.
fn line_cells(k: usize) -> (r: (usize, usize, usize))
    requires
        k < 8,
    ensures
        r.0 as int == line(k as int).0,
        r.1 as int == line(k as int).1,
        r.2 as int == line(k as int).2,
{
    if k == 0 {
        (0, 1, 2)
    } else if k == 1 {
        (3, 4, 5)
    } else if k == 2 {
        (6, 7, 8)
    } else if k == 3 {
        (0, 3, 6)
    } else if k == 4 {
        (1, 4, 7)
    } else if k == 5 {
        (2, 5, 8)
    } else if k == 6 {
        (0, 4, 8)
    } else {
        (2, 4, 6)
    }
}

/// A 3x3 grid of squares, stored row by row.
#[derive(Copy, Clone)]
struct Board<S: TTTSquare>([S; 9]);

impl<S: TTTSquare> Board<S> {
    spec fn squares(&self) -> Seq<SquareState> {
        self.0@.map_values(|c: S| c.square_state())
    }

    fn eval(&self) -> (r: GameState)
        ensures
            r == eval_squares(self.squares()),
    {
        if self.won_by(Player::Ex) {
            GameState::Won(Player::Ex)
        } else if self.won_by(Player::Oh) {
            GameState::Won(Player::Oh)
        } else if self.is_full() {
            GameState::Drawn
        } else {
            GameState::Ongoing
        }
    }

    fn won_by(&self, player: Player) -> (r: bool)
        ensures
            r == won_by(self.squares(), player),
    {
        let mut k: usize = 0;
        while k < 8
            invariant
                k <= 8,
                forall|j: int| 0 <= j < k ==> !line_won(self.squares(), j, player),
            decreases 8 - k,
        {
            let (a, b, c) = line_cells(k);
            if self.0[a].state() == SquareState::Marked(player)
                && self.0[b].state() == SquareState::Marked(player)
                && self.0[c].state() == SquareState::Marked(player)
            {
                assert(line_won(self.squares(), k as int, player));
                return true;
            }
            k += 1;
        }
        false
    }

    fn is_full(&self) -> (r: bool)
        ensures
            r == is_full(self.squares()),
    {
        let mut i: usize = 0;
        while i < 9
            invariant
                i <= 9,
                forall|j: int| 0 <= j < i ==> self.squares()[j] != SquareState::Empty,
            decreases 9 - i,
        {
            if self.0[i].state() == SquareState::Empty {
                assert(self.squares()[i as int] == SquareState::Empty);
                return false;
            }
            i += 1;
        }
        true
    }
}

/// One ordinary game of Tic-Tac-Toe and its cached state.
#[derive(Copy, Clone)]
pub struct TicTacToe {
    board: Board<Option<Player>>,
    game_state: GameState,
}

/// Why a sub-board refused a placement.
#[derive(Debug, Copy, Clone, PartialEq, Eq, Structural)]
pub enum TTTError {
    /// The cell index is 9 or more.
    InvalidIndex,
    /// The cell is already marked, by this player.
    NonEmptySquare(Player),
    /// The sub-board is already finished.
    GameOver,
}

impl TicTacToe {
    /// The nine cells, row by row.
    pub closed spec fn cells(&self) -> Seq<Option<Player>> {
        self.board.0@
    }

    /// The cached state.
    pub closed spec fn cached(&self) -> GameState {
        self.game_state
    }

    /// The cached state is the evaluation of the cells, and at most one player
    /// holds a line.
    pub open spec fn wf(&self) -> bool {
        &&& self.cells().len() == 9
        &&& self.cached() == eval_cells(self.cells())
        &&& single_winner(cell_squares(self.cells()))
    }

    /// Why placing on cell `idx` would fail, if it would.
    pub open spec fn place_error(&self, idx: usize) -> Option<TTTError> {
        if self.cached() != GameState::Ongoing {
            Some(TTTError::GameOver)
        } else if idx >= 9 {
            Some(TTTError::InvalidIndex)
        } else if let Some(p) = self.cells()[idx as int] {
            Some(TTTError::NonEmptySquare(p))
        } else {
            None
        }
    }

    proof fn lemma_squares(&self)
        ensures
            self.board.squares() == cell_squares(self.cells()),
    {
        assert(self.board.squares() =~= cell_squares(self.cells()));
    }

    /// The mark in cell `idx`, if any.
    pub fn cell(&self, idx: usize) -> (r: Option<Player>)
        requires
            self.wf(),
            idx < 9,
        ensures
            r == self.cells()[idx as int],
    {
        self.board.0[idx]
    }

    /// The cached state.
    pub fn game_state(&self) -> (r: GameState)
        ensures
            r == self.cached(),
    {
        self.game_state
    }

    /// An empty board.
    pub fn new() -> (r: Self)
        ensures
            r.wf(),
            r.cells() == Seq::new(9, |i: int| None::<Player>),
            r.cached() == GameState::Ongoing,
    {
        let r = TicTacToe {
            board: Board([None, None, None, None, None, None, None, None, None]),
            game_state: GameState::Ongoing,
        };
        proof {
            assert(r.cells() =~= Seq::new(9, |i: int| None::<Player>));
            assert(!line_won(cell_squares(r.cells()), 0, Player::Ex));
            assert(!won_by(cell_squares(r.cells()), Player::Ex));
            assert(!won_by(cell_squares(r.cells()), Player::Oh));
            assert(cell_squares(r.cells())[0] == SquareState::Empty);
        }
        r
    }

    /// Whether `place` would accept cell `idx`, without changing anything.
    pub fn move_is_valid(&self, idx: usize) -> (r: bool)
        requires
            self.wf(),
        ensures
            r == self.place_error(idx).is_none(),
    {
        if self.game_state != GameState::Ongoing || idx >= 9 {
            return false;
        }
        match self.board.0[idx] {
            Some(_) => false,
            None => true,
        }
    }

    /// Marks cell `idx` for `player` and recomputes the cached state.
    pub fn place(&mut self, player: Player, idx: usize) -> (r: Result<(), TTTError>)
        requires
            old(self).wf(),
        ensures
            final(self).wf(),
            match old(self).place_error(idx) {
                Some(e) => r == Err::<(), TTTError>(e) && *final(self) == *old(self),
                None => {
                    &&& r is Ok
                    &&& final(self).cells() == old(self).cells().update(idx as int, Some(player))
                    &&& final(self).cached() == eval_cells(final(self).cells())
                },
            },
    {
        if self.game_state != GameState::Ongoing {
            return Err(TTTError::GameOver);
        } else if idx >= 9 {
            return Err(TTTError::InvalidIndex);
        }
        if let Some(resident) = self.board.0[idx] {
            Err(TTTError::NonEmptySquare(resident))
        } else {
            let ghost before = self.cells();
            self.board.0[idx] = Some(player);
            proof {
                lemma_place_keeps_single_winner(before, idx as int, player);
            }
            let g = self.board.eval();
            proof {
                self.lemma_squares();
            }
            self.game_state = g;
            Ok(())
        }
    }
}

impl TTTSquare for TicTacToe {
    open spec fn square_state(&self) -> SquareState {
        board_state(self.cached())
    }

    fn state(&self) -> (r: SquareState) {
        match self.game_state {
            GameState::Ongoing => SquareState::Empty,
            GameState::Won(p) => SquareState::Marked(p),
            GameState::Drawn => SquareState::Closed,
        }
    }
}

/// Marking an empty cell of an ongoing board for `p` gives no line to the other
/// player, so at most one player holds a line afterwards.
proof fn lemma_place_keeps_single_winner(cells: Seq<Option<Player>>, i: int, p: Player)
    requires
        cells.len() == 9,
        0 <= i < 9,
        cells[i] is None,
        eval_cells(cells) == GameState::Ongoing,
    ensures
        single_winner(cell_squares(cells.update(i, Some(p)))),
        !won_by(cell_squares(cells.update(i, Some(p))), other(p)),
{
    lemma_mark_keeps_single_winner(cell_squares(cells), i, SquareState::Marked(p), p);
    assert(cell_squares(cells.update(i, Some(p))) =~= cell_squares(cells).update(
        i,
        SquareState::Marked(p),
    ));
}

/// Turning an open square of a grid that nobody has won into one marked by `p`,
/// or into a closed one, lets nobody but `p` win.
proof fn lemma_mark_keeps_single_winner(sq: Seq<SquareState>, i: int, v: SquareState, p: Player)
    requires
        sq.len() == 9,
        0 <= i < 9,
        sq[i] == SquareState::Empty,
        !won_by(sq, Player::Ex),
        !won_by(sq, Player::Oh),
        v == SquareState::Marked(p) || v == SquareState::Closed,
    ensures
        single_winner(sq.update(i, v)),
        !won_by(sq.update(i, v), other(p)),
{
    let nq = sq.update(i, v);
    assert forall|k: int| 0 <= k < 8 implies !line_won(nq, k, other(p)) by {
        assert(!line_won(sq, k, other(p)));
    }
}

/// The player who is not `p`.
pub open spec fn other(p: Player) -> Player {
    match p {
        Player::Ex => Player::Oh,
        Player::Oh => Player::Ex,
    }
}

impl Player {
    /// The other side.
    pub fn opponent(&self) -> (r: Player)
        ensures
            r == other(*self),
    {
        match *self {
            Player::Ex => Player::Oh,
            Player::Oh => Player::Ex,
        }
    }
}

/// The meta-board: nine sub-boards, the cached state of the whole game, and the
/// sub-board that the next move is bound to, if any (0-based).
pub struct UltimateTicTacToe {
    board: Board<TicTacToe>,
    focus: Option<usize>,
    game_state: GameState,
}

/// What a meta-board holds, as mathematical values.
pub struct GameModel {
    /// The cells of each sub-board, sub-boards and cells both row by row.
    pub grid: Seq<Seq<Option<Player>>>,
    /// The cached state of each sub-board.
    pub sub_states: Seq<GameState>,
    /// The cached state of the whole game.
    pub game_state: GameState,
    /// The sub-board that the next move is bound to, if any.
    pub focus: Option<usize>,
}

impl GameModel {
    /// Every cached state equals the evaluation of what lies below it, no board
    /// has two winners, and the focus names an ongoing sub-board.
    pub open spec fn wf(self) -> bool {
        &&& self.grid.len() == 9
        &&& self.sub_states.len() == 9
        &&& forall|m: int|
            0 <= m < 9 ==> {
                &&& (#[trigger] self.grid[m]).len() == 9
                &&& self.sub_states[m] == eval_cells(self.grid[m])
                &&& single_winner(cell_squares(self.grid[m]))
            }
        &&& self.game_state == eval_meta(self.sub_states)
        &&& single_winner(meta_squares(self.sub_states))
        &&& match self.focus {
            Some(k) => k < 9 && self.sub_states[k as int] == GameState::Ongoing,
            None => true,
        }
    }

    /// The sub-board and the cell (both 0-based) that a move addresses under the
    /// current focus; `None` when its shape does not match the focus mode.
    pub open spec fn target(self, pos: BoardPos) -> Option<(int, int)> {
        match (self.focus, pos) {
            (Some(f), BoardPos::WithoutFocus(i)) => Some((f as int, i - 1)),
            (None, BoardPos::WithFocus(f, i)) => Some((f - 1, i - 1)),
            _ => None,
        }
    }

    /// Why a move would be refused, if it would.
    pub open spec fn move_error(self, pos: BoardPos) -> Option<GameError> {
        if self.game_state != GameState::Ongoing {
            Some(GameError::GameOver)
        } else if pos.illegal() {
            Some(GameError::IllegalIndex)
        } else {
            match self.target(pos) {
                None => Some(GameError::IncorrectInputVariant),
                Some((m, s)) => if self.sub_states[m] != GameState::Ongoing {
                    Some(GameError::SquareNotOpen)
                } else {
                    match self.grid[m][s] {
                        Some(p) => Some(GameError::SquareNotEmpty(p)),
                        None => None,
                    }
                },
            }
        }
    }

    /// The game after `player` marked cell `s` of sub-board `m`: the sub-board
    /// and the whole game are evaluated anew, and the opponent is sent to
    /// sub-board `s` if it is still ongoing, else gets a free choice.
    pub open spec fn mark(self, player: Player, m: int, s: int) -> GameModel {
        let cells = self.grid[m].update(s, Some(player));
        let states = self.sub_states.update(m, eval_cells(cells));
        GameModel {
            grid: self.grid.update(m, cells),
            sub_states: states,
            game_state: eval_meta(states),
            focus: if states[s] == GameState::Ongoing {
                Some(s as usize)
            } else {
                None
            },
        }
    }

    /// The game after `player` played `pos`, or the same game if the move is
    /// refused.
    pub open spec fn play(self, player: Player, pos: BoardPos) -> GameModel {
        if self.move_error(pos) is Some {
            self
        } else {
            self.mark(player, self.target(pos)->Some_0.0, self.target(pos)->Some_0.1)
        }
    }
}

impl View for UltimateTicTacToe {
    type V = GameModel;

    closed spec fn view(&self) -> GameModel {
        GameModel {
            grid: self.board.0@.map_values(|t: TicTacToe| t.cells()),
            sub_states: self.board.0@.map_values(|t: TicTacToe| t.cached()),
            game_state: self.game_state,
            focus: self.focus,
        }
    }
}

impl Default for UltimateTicTacToe {
    fn default() -> (r: Self)
        ensures
            r.wf(),
            r@ == Self::new_model(),
    {
        UltimateTicTacToe::new()
    }
}

impl UltimateTicTacToe {
    /// The invariant of the meta-board.
    pub open spec fn wf(&self) -> bool {
        self@.wf()
    }

    proof fn lemma_squares(&self)
        ensures
            self.board.squares() == meta_squares(self@.sub_states),
    {
        assert(self.board.squares() =~= meta_squares(self@.sub_states));
    }

    /// Nine empty sub-boards, all ongoing, and a free first move.
    pub open spec fn new_model() -> GameModel {
        GameModel {
            grid: Seq::new(9, |m: int| Seq::new(9, |i: int| None::<Player>)),
            sub_states: Seq::new(9, |m: int| GameState::Ongoing),
            game_state: GameState::Ongoing,
            focus: None,
        }
    }

    /// A game with nine empty sub-boards and a free first move.
    pub fn new() -> (r: Self)
        ensures
            r.wf(),
            r@ == Self::new_model(),
    {
        let t = TicTacToe::new();
        let r = UltimateTicTacToe {
            board: Board([t, t, t, t, t, t, t, t, t]),
            focus: None,
            game_state: GameState::Ongoing,
        };
        proof {
            assert(r@.grid =~= Seq::new(9, |m: int| Seq::new(9, |i: int| None::<Player>)));
            assert(r@.sub_states =~= Seq::new(9, |m: int| GameState::Ongoing));
            let sq = meta_squares(r@.sub_states);
            assert(!line_won(sq, 0, Player::Ex));
            assert(!won_by(sq, Player::Ex));
            assert(!won_by(sq, Player::Oh));
            assert(sq[0] == SquareState::Empty);
        }
        r
    }

    /// The state of the whole game.
    pub fn game_state(&self) -> (r: GameState)
        ensures
            r == self@.game_state,
    {
        self.game_state
    }

    /// The sub-board that the next move is bound to, if any (0-based).
    pub fn focus(&self) -> (r: Option<usize>)
        ensures
            r == self@.focus,
    {
        self.focus
    }

    /// Sub-board `k` (0-based, row by row).
    pub fn sub_board(&self, k: usize) -> (r: &TicTacToe)
        requires
            self.wf(),
            k < 9,
        ensures
            r.wf(),
            r.cells() == self@.grid[k as int],
            r.cached() == self@.sub_states[k as int],
    {
        proof {
            assert(self@.grid[k as int].len() == 9);
        }
        &self.board.0[k]
    }

    /// Resolves a move into 0-based (sub-board, cell) under the current focus.
    fn loc_from(&self, pos: BoardPos) -> (r: Result<(usize, usize), GameError>)
        requires
            self.wf(),
            !pos.illegal(),
        ensures
            match self@.target(pos) {
                Some((m, s)) => r == Ok::<(usize, usize), GameError>((m as usize, s as usize))
                    && 0 <= m < 9 && 0 <= s < 9,
                None => r == Err::<(usize, usize), GameError>(GameError::IncorrectInputVariant),
            },
    {
        match (self.focus, pos) {
            (Some(f), BoardPos::WithoutFocus(i)) => Ok((f, i - 1)),
            (None, BoardPos::WithFocus(f, i)) => Ok((f - 1, i - 1)),
            _ => Err(GameError::IncorrectInputVariant),
        }
    }

    /// Whether `place` would accept `pos`, without changing anything.
    pub fn move_is_valid(&self, pos: BoardPos) -> (r: bool)
        requires
            self.wf(),
        ensures
            r == self@.move_error(pos).is_none(),
    {
        if self.game_state != GameState::Ongoing || pos.is_illegal() {
            return false;
        }
        let (focus, square) = match self.loc_from(pos) {
            Ok(e) => e,
            _ => return false,
        };
        let sub_ttt = &self.board.0[focus];
        sub_ttt.move_is_valid(square)
    }

    /// Plays `pos` for `player`. On success the sub-board and the game are
    /// evaluated anew and the focus moves on; on failure nothing changes.
    pub fn place(&mut self, player: Player, pos: BoardPos) -> (r: Result<(), GameError>)
        requires
            old(self).wf(),
        ensures
            final(self).wf(),
            final(self)@ == old(self)@.play(player, pos),
            match old(self)@.move_error(pos) {
                Some(e) => r == Err::<(), GameError>(e),
                None => r is Ok,
            },
    {
        if self.game_state != GameState::Ongoing {
            return Err(GameError::GameOver);
        } else if pos.is_illegal() {
            return Err(GameError::IllegalIndex);
        }
        let (focus, square) = match self.loc_from(pos) {
            Ok(e) => e,
            Err(e) => return Err(e),
        };
        let mut sub_ttt = self.board.0[focus];
        let ghost before = self@;
        match sub_ttt.place(player, square) {
            Err(TTTError::NonEmptySquare(p)) => Err(GameError::SquareNotEmpty(p)),
            Err(TTTError::GameOver) => Err(GameError::SquareNotOpen),
            Err(TTTError::InvalidIndex) => Err(GameError::IllegalIndex),
            Ok(()) => {
                self.board.0[focus] = sub_ttt;
                proof {
                    assert(self@.grid =~= before.grid.update(focus as int, sub_ttt.cells()));
                    assert(self@.sub_states =~= before.sub_states.update(
                        focus as int,
                        sub_ttt.cached(),
                    ));
                }
                let g = self.board.eval();
                proof {
                    self.lemma_squares();
                }
                self.game_state = g;
                let next = &self.board.0[square];
                self.focus = if next.state() == SquareState::Empty {
                    Some(square)
                } else {
                    None
                };
                proof {
                    assert(self@.sub_states[square as int] == next.cached());
                    assert(self@ =~= before.play(player, pos));
                    lemma_play_keeps_wf(before, player, pos);
                }
                Ok(())
            },
        }
    }
}

/// Every move keeps a well-formed game well-formed. As `new` gives a
/// well-formed game, no sequence of moves reaches one where both players hold a
/// line, on the meta-board or on any sub-board.
pub proof fn lemma_play_keeps_wf(g: GameModel, player: Player, pos: BoardPos)
    requires
        g.wf(),
    ensures
        g.play(player, pos).wf(),
        single_winner(meta_squares(g.play(player, pos).sub_states)),
        forall|m: int|
            0 <= m < 9 ==> single_winner(cell_squares(#[trigger] g.play(player, pos).grid[m])),
{
    if g.move_error(pos) is None {
        let (m, s) = g.target(pos)->Some_0;
        let n = g.play(player, pos);
        let cells = g.grid[m];
        lemma_place_keeps_single_winner(cells, s, player);
        let st = eval_cells(cells.update(s, Some(player)));
        assert(st == GameState::Ongoing || st == GameState::Drawn || st == GameState::Won(player));
        let sq = meta_squares(g.sub_states);
        if st != GameState::Ongoing {
            lemma_mark_keeps_single_winner(sq, m, board_state(st), player);
        } else {
            assert(sq.update(m, board_state(st)) =~= sq);
        }
        assert(meta_squares(n.sub_states) =~= sq.update(m, board_state(st)));
        assert forall|j: int| 0 <= j < 9 implies {
            &&& (#[trigger] n.grid[j]).len() == 9
            &&& n.sub_states[j] == eval_cells(n.grid[j])
            &&& single_winner(cell_squares(n.grid[j]))
        } by {
            if j != m {
                assert(n.grid[j] == g.grid[j]);
            }
        }
    }
}

/// The board whose only marks are `p`'s on the three cells of line `k`.
pub open spec fn line_only(k: int, p: Player) -> Seq<Option<Player>> {
    Seq::new(
        9,
        |i: int|
            if i == line(k).0 || i == line(k).1 || i == line(k).2 {
                Some(p)
            } else {
                None
            },
    )
}

/// Marking the three cells of any winning line for one player, with every other
/// cell empty, wins the board for that player.
pub proof fn lemma_line_wins(k: int, p: Player)
    requires
        0 <= k < 8,
    ensures
        eval_cells(line_only(k, p)) == GameState::Won(p),
{
    let sq = cell_squares(line_only(k, p));
    assert(line_won(sq, k, p));
    assert forall|j: int| 0 <= j < 8 implies !line_won(sq, j, other(p)) by {
        assert(sq[line(j).0] != SquareState::Marked(other(p)));
    }
}

/// A board with all nine cells marked and no line held by either player is
/// drawn.
pub proof fn lemma_full_without_line_is_drawn(cells: Seq<Option<Player>>)
    requires
        cells.len() == 9,
        forall|i: int| 0 <= i < 9 ==> (#[trigger] cells[i]) is Some,
        !won_by(cell_squares(cells), Player::Ex),
        !won_by(cell_squares(cells), Player::Oh),
    ensures
        eval_cells(cells) == GameState::Drawn,
{
    assert forall|i: int| 0 <= i < 9 implies cell_squares(cells)[i] != SquareState::Empty by {
        assert(cells[i] is Some);
    }
}

/// Placing on a marked cell of an ongoing sub-board is refused with the
/// occupant's name; `place` then leaves the sub-board as it was.
pub proof fn lemma_occupied_cell_refused(t: TicTacToe, idx: usize, q: Player)
    requires
        t.wf(),
        t.cached() == GameState::Ongoing,
        idx < 9,
        t.cells()[idx as int] == Some(q),
    ensures
        t.place_error(idx) == Some(TTTError::NonEmptySquare(q)),
{
}

/// After an accepted move on cell `s` of its sub-board, the opponent is bound
/// to sub-board `s` when that sub-board is still ongoing, and is free
/// otherwise.
pub proof fn lemma_focus_follows_cell(g: GameModel, player: Player, pos: BoardPos)
    requires
        g.wf(),
        g.move_error(pos) is None,
    ensures
        ({
            let s = g.target(pos)->Some_0.1;
            let n = g.play(player, pos);
            &&& 0 <= s < 9
            &&& n.sub_states[s] == GameState::Ongoing ==> n.focus == Some(s as usize)
            &&& n.sub_states[s] != GameState::Ongoing ==> n.focus is None
        }),
{
}

/// A free-choice move while a sub-board is imposed, or a bound move while the
/// choice is free, is refused as the wrong shape and changes nothing, in an
/// ongoing game and with indices in range.
pub proof fn lemma_wrong_shape_refused(g: GameModel, player: Player, pos: BoardPos)
    requires
        g.game_state == GameState::Ongoing,
        !pos.illegal(),
        (g.focus is Some && pos is WithFocus) || (g.focus is None && pos is WithoutFocus),
    ensures
        g.move_error(pos) == Some(GameError::IncorrectInputVariant),
        g.play(player, pos) == g,
{
}

/// An index of 0 or above 9 makes a move illegal, in either shape; in an
/// ongoing game such a move is refused as `IllegalIndex` and changes nothing.
pub proof fn lemma_out_of_range_refused(g: GameModel, player: Player, i: usize, j: usize)
    requires
        g.game_state == GameState::Ongoing,
        i == 0 || i > 9,
    ensures
        BoardPos::WithoutFocus(i).illegal(),
        BoardPos::WithFocus(i, j).illegal(),
        BoardPos::WithFocus(j, i).illegal(),
        g.move_error(BoardPos::WithoutFocus(i)) == Some(GameError::IllegalIndex),
        g.move_error(BoardPos::WithFocus(i, j)) == Some(GameError::IllegalIndex),
        g.move_error(BoardPos::WithFocus(j, i)) == Some(GameError::IllegalIndex),
        g.play(player, BoardPos::WithoutFocus(i)) == g,
        g.play(player, BoardPos::WithFocus(i, j)) == g,
        g.play(player, BoardPos::WithFocus(j, i)) == g,
{
}

} // verus!
