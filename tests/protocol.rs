use ut3::game::{GameError, GameState, Player};
use ut3::messages::{BoardPos, GameUpdate};
use ut3::mirror::{ClientAction, Mirror, MirrorFault};
use ut3::session::{identity_of_connection, Notice, Session};

use BoardPos::{WithFocus as W, WithoutFocus as O};

/// X's last move wins sub-board 2 and the middle column of the meta-board.
fn winning_game() -> Vec<BoardPos> {
    vec![
        W(2, 3), O(8), O(8), O(5), O(4), O(4), O(1), O(7), O(7), O(5), O(9), O(5), O(3),
        O(5), O(6), O(8), O(7), O(8), O(9), O(9), O(6), O(2), O(2), O(5), W(2, 1),
    ]
}

/// Every sub-board ends finished and no line of them is held on the meta-board.
fn drawn_game() -> Vec<BoardPos> {
    vec![
        W(2, 3), O(6), O(4), O(1), O(5), O(3), O(9), O(1), O(8), O(7), O(9), O(9), O(8),
        O(1), O(4), O(5), O(2), O(7), O(8), O(9), O(2), O(1), O(9), O(5), O(9), W(8, 8),
        W(5, 8), W(4, 9), W(2, 2), O(4), W(7, 7), W(3, 3), O(4), W(1, 6), O(9), W(3, 2),
        W(6, 1), O(2), W(6, 7), W(5, 4), W(5, 5), W(1, 1), O(7), W(3, 1),
    ]
}

fn other(p: Player) -> Player {
    if p == Player::Ex { Player::Oh } else { Player::Ex }
}

/// Plays a whole game through a session and a mirror on each side, as the
/// transport would; returns the last notices and each side's last action.
fn play_out(moves: &[BoardPos]) -> (Vec<Notice>, Result<ClientAction, MirrorFault>, Result<ClientAction, MirrorFault>) {
    let mut s = Session::new();
    let mut x = Mirror::new(identity_of_connection(true));
    let mut o = Mirror::new(identity_of_connection(false));
    let opening = s.opening();
    assert_eq!(opening, Notice { to: Player::Ex, update: GameUpdate::Start });
    assert_eq!(x.on_update(opening.update), Ok(ClientAction::ChooseMove));
    let mut last = (Vec::new(), Ok(ClientAction::ChooseMove), Ok(ClientAction::ChooseMove));
    for (n, pos) in moves.iter().enumerate() {
        let mover = s.turn();
        if mover == Player::Ex { x.record_move(*pos) } else { o.record_move(*pos) }
        let notices = s.submit(*pos);
        assert!(!notices.is_empty(), "move {}", n);
        let mut rx = Ok(ClientAction::ChooseMove);
        let mut ro = Ok(ClientAction::ChooseMove);
        for notice in &notices {
            if notice.to == Player::Ex {
                rx = x.on_update(notice.update);
            } else {
                ro = o.on_update(notice.update);
            }
        }
        last = (notices, rx, ro);
    }
    assert_eq!(x.game().board_as_string(), s.game().board_as_string());
    assert_eq!(o.game().board_as_string(), s.game().board_as_string());
    last
}

#[test]
fn first_connection_plays_x_and_starts() {
    assert_eq!(identity_of_connection(true), Player::Ex);
    assert_eq!(identity_of_connection(false), Player::Oh);
    let s = Session::new();
    assert_eq!(s.turn(), Player::Ex);
    assert!(!s.is_over());
    assert_eq!(s.opening(), Notice { to: Player::Ex, update: GameUpdate::Start });
}

#[test]
fn accepted_move_passes_the_turn() {
    let mut s = Session::new();
    let notices = s.submit(W(5, 5));
    assert_eq!(notices, vec![Notice { to: Player::Oh, update: GameUpdate::Move(W(5, 5)) }]);
    assert_eq!(s.turn(), Player::Oh);
    assert_eq!(s.game().focus(), Some(4));
    let notices = s.submit(O(3));
    assert_eq!(notices, vec![Notice { to: Player::Ex, update: GameUpdate::Move(O(3)) }]);
    assert_eq!(s.turn(), Player::Ex);
}

#[test]
fn refused_move_goes_back_to_the_same_side() {
    let mut s = Session::new();
    let before = s.game().board_as_string();
    assert_eq!(s.submit(O(5)), vec![Notice { to: Player::Ex, update: GameUpdate::BadMove }]);
    assert_eq!(s.submit(W(0, 5)), vec![Notice { to: Player::Ex, update: GameUpdate::BadMove }]);
    assert_eq!(s.turn(), Player::Ex);
    assert_eq!(s.game().board_as_string(), before);
    s.submit(W(5, 5));
    assert_eq!(s.submit(O(5)), vec![Notice { to: Player::Oh, update: GameUpdate::BadMove }]);
    assert_eq!(s.turn(), Player::Oh);
}

#[test]
fn winning_move_ends_the_session() {
    let moves = winning_game();
    let last = *moves.last().unwrap();
    let (notices, rx, ro) = play_out(&moves);
    assert_eq!(
        notices,
        vec![
            Notice { to: Player::Ex, update: GameUpdate::GameWon },
            Notice { to: Player::Oh, update: GameUpdate::GameWonByOpponent(last) },
        ]
    );
    assert_eq!(rx, Ok(ClientAction::Won));
    assert_eq!(ro, Ok(ClientAction::Lost));
}

#[test]
fn session_is_over_after_a_win() {
    let mut s = Session::new();
    for pos in winning_game() {
        s.submit(pos);
    }
    assert!(s.is_over());
    assert_eq!(s.game().game_state(), GameState::Won(Player::Ex));
    assert_eq!(s.turn(), Player::Ex);
    assert_eq!(s.submit(W(1, 1)), vec![]);
}

#[test]
fn drawing_move_ends_the_session() {
    let moves = drawn_game();
    let last = *moves.last().unwrap();
    let mover = if moves.len() % 2 == 1 { Player::Ex } else { Player::Oh };
    let (notices, rx, ro) = play_out(&moves);
    assert_eq!(
        notices,
        vec![
            Notice { to: mover, update: GameUpdate::GameDrawn },
            Notice { to: other(mover), update: GameUpdate::GameDrawnByOpponent(last) },
        ]
    );
    assert_eq!(rx, Ok(ClientAction::Drawn));
    assert_eq!(ro, Ok(ClientAction::Drawn));
}

#[test]
fn mirror_reports_desynchronisation() {
    let mut o = Mirror::new(Player::Oh);
    assert_eq!(o.on_update(GameUpdate::GameWon), Err(MirrorFault::NoMoveSent));
    assert_eq!(
        o.on_update(GameUpdate::Move(O(5))),
        Err(MirrorFault::MoveRefused(GameError::IncorrectInputVariant))
    );
    assert_eq!(o.on_update(GameUpdate::Move(W(5, 5))), Ok(ClientAction::ChooseMove));
    assert_eq!(o.game().focus(), Some(4));
    o.record_move(O(5));
    assert_eq!(
        o.on_update(GameUpdate::Move(O(1))),
        Err(MirrorFault::MoveRefused(GameError::SquareNotEmpty(Player::Ex)))
    );
}

#[test]
fn mirror_applies_own_move_before_the_opponents() {
    let mut x = Mirror::new(Player::Ex);
    assert_eq!(x.identity(), Player::Ex);
    assert_eq!(x.on_update(GameUpdate::Start), Ok(ClientAction::ChooseMove));
    x.record_move(W(1, 1));
    assert_eq!(x.on_update(GameUpdate::BadMove), Ok(ClientAction::ChooseMove));
    x.record_move(W(5, 5));
    assert_eq!(x.on_update(GameUpdate::Move(O(1))), Ok(ClientAction::ChooseMove));
    assert_eq!(x.game().sub_board(4).cell(4), Some(Player::Ex));
    assert_eq!(x.game().sub_board(4).cell(0), Some(Player::Oh));
    assert_eq!(x.game().sub_board(0).cell(0), None);
    assert_eq!(x.game().focus(), Some(0));
}

#[test]
fn accepting_gives_up_after_ten_failures() {
    assert!(!ut3::session::accept_gives_up(0));
    assert!(!ut3::session::accept_gives_up(9));
    assert!(ut3::session::accept_gives_up(10));
    assert!(ut3::session::accept_gives_up(11));
}
