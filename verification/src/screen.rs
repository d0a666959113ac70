//! What the game shows: the text of each cell and of the status line, and the
//! place of each on a character grid. Drawing them is left to the caller.

use vstd::prelude::*;
use crate::game::Game;
use crate::piece::Piece;
use crate::point::Point;

verus! {

/// A rectangle of character cells: `x` and `y` are the column and the row of
/// its top left corner, counted from 0.
#[derive(Clone, Copy, Debug, PartialEq, Eq, Structural)]
pub struct Area {
    pub x: u16,
    pub y: u16,
    pub width: u16,
    pub height: u16,
}

impl Area {
    /// Whether the character at column `column` and row `row` lies in the
    /// rectangle.
    pub open spec fn covers(self, column: int, row: int) -> bool {
        self.x <= column < self.x + self.width && self.y <= row < self.y + self.height
    }

    /// Whether two rectangles have no character in common.
    pub open spec fn disjoint(self, other: Area) -> bool {
        forall|column: int, row: int|
            !(#[trigger] self.covers(column, row) && #[trigger] other.covers(column, row))
    }
}

/// The text of a board cell, three characters wide: blank for an empty cell,
/// else the piece's label with a blank on either side.
pub open spec fn spec_cell_text(cell: Option<Piece>) -> Seq<char> {
    match cell {
        None => seq![' ', ' ', ' '],
        Some(piece) => seq![' '] + piece.spec_label() + seq![' '],
    }
}

/// The text of the status line: the winner if there is one, else the player
/// to move.
pub open spec fn spec_status_text(winner: Option<Piece>, next_turn: Piece) -> Seq<char> {
    match winner {
        None => "Next player: "@ + next_turn.spec_label(),
        Some(piece) => "Winner: "@ + piece.spec_label(),
    }
}

/// Where the cell at `point` is shown: cells are three characters wide and
/// one high, a column of cells every four characters and a row every two
/// lines, after a margin of one.
pub open spec fn spec_cell_area(point: Point) -> Area {
    Area { x: (4 * point.x + 1) as u16, y: (2 * point.y + 1) as u16, width: 3, height: 1 }
}

/// Where the status line is shown, to the right of the board.
pub open spec fn spec_status_area() -> Area {
    Area { x: 16, y: 1, width: 16, height: 1 }
}

/// Where the hint on how to leave is shown, below the status line.
pub open spec fn spec_hint_area() -> Area {
    Area { x: 16, y: 5, width: 16, height: 1 }
}

/// Returns the text of a board cell.
pub fn cell_text(cell: Option<Piece>) -> (text: &'static str)
    ensures
        text@ == spec_cell_text(cell),
{
    proof {
        reveal_strlit("   ");
        reveal_strlit(" O ");
        reveal_strlit(" X ");
    }
    match cell {
        None => {
            assert("   "@ =~= spec_cell_text(cell));
            "   "
        },
        Some(Piece::O) => {
            assert(" O "@ =~= spec_cell_text(cell));
            " O "
        },
        Some(Piece::X) => {
            assert(" X "@ =~= spec_cell_text(cell));
            " X "
        },
    }
}

/// Returns the text of the status line.
pub fn status_text(winner: Option<Piece>, next_turn: Piece) -> (text: &'static str)
    ensures
        text@ == spec_status_text(winner, next_turn),
{
    proof {
        reveal_strlit("Next player: ");
        reveal_strlit("Winner: ");
        reveal_strlit("Next player: O");
        reveal_strlit("Next player: X");
        reveal_strlit("Winner: O");
        reveal_strlit("Winner: X");
    }
    match (winner, next_turn) {
        (None, Piece::O) => {
            assert("Next player: O"@ =~= spec_status_text(winner, next_turn));
            "Next player: O"
        },
        (None, Piece::X) => {
            assert("Next player: X"@ =~= spec_status_text(winner, next_turn));
            "Next player: X"
        },
        (Some(Piece::O), _) => {
            assert("Winner: O"@ =~= spec_status_text(winner, next_turn));
            "Winner: O"
        },
        (Some(Piece::X), _) => {
            assert("Winner: X"@ =~= spec_status_text(winner, next_turn));
            "Winner: X"
        },
    }
}

/// Returns the hint on how to leave the game.
pub fn hint_text() -> (text: &'static str)
    ensures
        text@ == "Press q to exit."@,
{
    "Press q to exit."
}

/// Returns the place of the cell at `point` on the screen.
pub fn cell_area(point: &Point) -> (area: Area)
    ensures
        area == spec_cell_area(*point),
{
    Area { x: 4 * (point.x as u16) + 1, y: 2 * (point.y as u16) + 1, width: 3, height: 1 }
}

/// Returns the place of the status line on the screen.
pub fn status_area() -> (area: Area)
    ensures
        area == spec_status_area(),
{
    Area { x: 16, y: 1, width: 16, height: 1 }
}

/// Returns the place of the hint on the screen.
pub fn hint_area() -> (area: Area)
    ensures
        area == spec_hint_area(),
{
    Area { x: 16, y: 5, width: 16, height: 1 }
}

impl Game {
    /// Returns whether the cursor is on the cell at `point`, which is then
    /// shown highlighted.
    pub fn is_selected(&self, point: &Point) -> (selected: bool)
        ensures
            selected == (self@.cursor == *point),
    {
        let cursor = self.cursor();
        cursor.x == point.x && cursor.y == point.y
    }
}

/// Nothing on the screen overlaps: the cells of the board lie apart from
/// each other, from the status line and from the hint.
pub proof fn areas_do_not_overlap(p: Point, q: Point)
    requires
        p.on_board(),
        q.on_board(),
    ensures
        p != q ==> spec_cell_area(p).disjoint(spec_cell_area(q)),
        spec_cell_area(p).disjoint(spec_status_area()),
        spec_cell_area(p).disjoint(spec_hint_area()),
        spec_status_area().disjoint(spec_hint_area()),
{
}

} // verus!
