use vstd::prelude::*;

use itertools::Itertools;

use crate::game::{Player, TicTacToe, UltimateTicTacToe};

verus! {

/// Separates two lines inside a band of sub-boards.
pub const SMALL_LINE: &'static str = "---+---+--- # ---+---+--- # ---+---+---";

/// Separates two bands of sub-boards.
pub const BIG_LINE: &'static str = "#######################################";

/// `parts` in order, with `sep` between each two.
pub open spec fn joined(parts: Seq<Seq<char>>, sep: Seq<char>) -> Seq<char>
    decreases parts.len(),
{
    if parts.len() == 0 {
        Seq::empty()
    } else if parts.len() == 1 {
        parts[0]
    } else {
        joined(parts.drop_last(), sep) + sep + parts.last()
    }
}

/// The text of one cell: the player's letter between two spaces, or three spaces.
pub open spec fn mark_text(c: Option<Player>) -> Seq<char> {
    match c {
        Some(Player::Ex) => " X "@,
        Some(Player::Oh) => " O "@,
        None => "   "@,
    }
}

/// Row `r` of an ordinary board: its three cells separated by `|`.
pub open spec fn row_text(cells: Seq<Option<Player>>, r: int) -> Seq<char> {
    joined(
        seq![mark_text(cells[3 * r]), mark_text(cells[3 * r + 1]), mark_text(cells[3 * r + 2])],
        "|"@,
    )
}

/// Line `l` of band `b` of the meta-board: row `l` of the band's three
/// sub-boards, separated by ` # `, and a line break.
pub open spec fn band_line(grid: Seq<Seq<Option<Player>>>, b: int, l: int) -> Seq<char> {
    row_text(grid[3 * b], l) + " # "@ + row_text(grid[3 * b + 1], l) + " # "@ + row_text(
        grid[3 * b + 2],
        l,
    ) + "\n"@
}

/// Band `b` of the meta-board: its three lines, with a thin rule between two.
pub open spec fn band_text(grid: Seq<Seq<Option<Player>>>, b: int) -> Seq<char> {
    band_line(grid, b, 0) + SMALL_LINE@ + "\n"@ + band_line(grid, b, 1) + SMALL_LINE@ + "\n"@
        + band_line(grid, b, 2)
}

/// The whole meta-board: its three bands, with a thick rule between two.
pub open spec fn board_text(grid: Seq<Seq<Option<Player>>>) -> Seq<char> {
    band_text(grid, 0) + BIG_LINE@ + "\n"@ + band_text(grid, 1) + BIG_LINE@ + "\n"@ + band_text(
        grid,
        2,
    )
}

/// Relies on `Itertools::format` of itertools: it writes the parts in order,
/// with `sep` between each two.
#[verifier::external_body]
fn join_with(parts: &Vec<&str>, sep: &str) -> (r: String)
    ensures
        r@ == joined(parts@.map_values(|s: &str| s@), sep@),
{
    parts.iter().format(sep).to_string()
}

fn mark_str(c: Option<Player>) -> (r: &'static str)
    ensures
        r@ == mark_text(c),
{
    match c {
        Some(Player::Ex) => " X ",
        Some(Player::Oh) => " O ",
        None => "   ",
    }
}

impl TicTacToe {
    /// Row `idx` of this board as text.
    pub fn get_line(&self, idx: usize) -> (r: String)
        requires
            self.wf(),
            idx < 3,
        ensures
            r@ == row_text(self.cells(), idx as int),
    {
        let parts = vec![
            mark_str(self.cell(3 * idx)),
            mark_str(self.cell(3 * idx + 1)),
            mark_str(self.cell(3 * idx + 2)),
        ];
        let r = join_with(&parts, "|");
        proof {
            assert(parts@.map_values(|s: &str| s@) =~= seq![
                mark_text(self.cells()[3 * idx]),
                mark_text(self.cells()[3 * idx + 1]),
                mark_text(self.cells()[3 * idx + 2]),
            ]);
        }
        r
    }
}

impl UltimateTicTacToe {
    fn push_band_line(&self, display: &mut String, b: usize, l: usize)
        requires
            self.wf(),
            b < 3,
            l < 3,
        ensures
            final(display)@ == old(display)@ + band_line(self@.grid, b as int, l as int),
    {
        let ghost start = display@;
        let t0 = self.sub_board(3 * b).get_line(l);
        let t1 = self.sub_board(3 * b + 1).get_line(l);
        let t2 = self.sub_board(3 * b + 2).get_line(l);
        display.append(t0.as_str());
        display.append(" # ");
        display.append(t1.as_str());
        display.append(" # ");
        display.append(t2.as_str());
        display.append("\n");
        assert(display@ =~= start + band_line(self@.grid, b as int, l as int));
    }

    fn push_band(&self, display: &mut String, b: usize)
        requires
            self.wf(),
            b < 3,
        ensures
            final(display)@ == old(display)@ + band_text(self@.grid, b as int),
    {
        let ghost start = display@;
        self.push_band_line(display, b, 0);
        display.append(SMALL_LINE);
        display.append("\n");
        self.push_band_line(display, b, 1);
        display.append(SMALL_LINE);
        display.append("\n");
        self.push_band_line(display, b, 2);
        assert(display@ =~= start + band_text(self@.grid, b as int));
    }

    /// The meta-board as text, band by band, with rules between sub-boards.
    pub fn board_as_string(&self) -> (r: String)
        requires
            self.wf(),
        ensures
            r@ == board_text(self@.grid),
    {
        let mut display = String::new();
        self.push_band(&mut display, 0);
        display.append(BIG_LINE);
        display.append("\n");
        self.push_band(&mut display, 1);
        display.append(BIG_LINE);
        display.append("\n");
        self.push_band(&mut display, 2);
        assert(display@ =~= board_text(self@.grid));
        display
    }
}

} // verus!
