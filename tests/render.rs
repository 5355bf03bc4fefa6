use ut3::game::{Player, TicTacToe, UltimateTicTacToe};
use ut3::messages::BoardPos;

const EMPTY_BOARD: &str = "   |   |    #    |   |    #    |   |   \n---+---+--- # ---+---+--- # ---+---+---\n   |   |    #    |   |    #    |   |   \n---+---+--- # ---+---+--- # ---+---+---\n   |   |    #    |   |    #    |   |   \n#######################################\n   |   |    #    |   |    #    |   |   \n---+---+--- # ---+---+--- # ---+---+---\n   |   |    #    |   |    #    |   |   \n---+---+--- # ---+---+--- # ---+---+---\n   |   |    #    |   |    #    |   |   \n#######################################\n   |   |    #    |   |    #    |   |   \n---+---+--- # ---+---+--- # ---+---+---\n   |   |    #    |   |    #    |   |   \n---+---+--- # ---+---+--- # ---+---+---\n   |   |    #    |   |    #    |   |   \n";

#[test]
fn empty_row_is_three_blank_cells_joined_by_bars() {
    let t = TicTacToe::new();
    assert_eq!(t.get_line(0), "   |   |   ");
    assert_eq!(t.get_line(2), "   |   |   ");
}

#[test]
fn marked_row_shows_letters() {
    let mut t = TicTacToe::new();
    t.place(Player::Ex, 3).unwrap();
    t.place(Player::Oh, 5).unwrap();
    assert_eq!(t.get_line(1), " X |   | O ");
    assert_eq!(t.get_line(0), "   |   |   ");
}

#[test]
fn empty_meta_board_text() {
    let g = UltimateTicTacToe::new();
    assert_eq!(g.board_as_string(), EMPTY_BOARD);
}

#[test]
fn meta_board_text_after_two_moves() {
    let mut g = UltimateTicTacToe::new();
    g.place(Player::Ex, BoardPos::WithFocus(1, 1)).unwrap();
    g.place(Player::Oh, BoardPos::WithoutFocus(5)).unwrap();
    g.place(Player::Ex, BoardPos::WithoutFocus(9)).unwrap();
    let text = g.board_as_string();
    let lines: Vec<&str> = text.split('\n').collect();
    assert_eq!(lines.len(), 18);
    assert_eq!(lines[0], " X |   |    #    |   |    #    |   |   ");
    assert_eq!(lines[2], "   | O |    #    |   |    #    |   |   ");
    assert_eq!(lines[6], "   |   |    #    |   |    #    |   |   ");
    assert_eq!(lines[8], "   |   |    #    |   |    #    |   |   ");
    assert_eq!(lines[10], "   |   |    #    |   | X  #    |   |   ");
    assert_eq!(lines[5], "#######################################");
    assert_eq!(lines[17], "");
}
