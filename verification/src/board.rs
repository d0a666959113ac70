//! The 3x3 board, its eight winning lines, and the judging of a winner.
//!
//! A board is modelled by the sequence of its nine cells, row after row; all
//! the rules are stated over that sequence.

use vstd::prelude::*;
use crate::piece::Piece;
use crate::point::Point;

verus! {

/// The position of a point's cell in the sequence of cells.
pub open spec fn cell_index(p: Point) -> int {
    p.x + p.y * 3
}

/// The point whose cell stands at position `index` in the sequence of cells.
pub open spec fn cell_at(index: int) -> Point {
    Point { x: (index % 3) as u8, y: (index / 3) as u8 }
}

/// The eight lines of three cells that win the game: the rows from top to
/// bottom, the columns from left to right, then the two diagonals.
pub open spec fn winning_lines() -> Seq<Seq<Point>> {
    seq![
        seq![Point { x: 0, y: 0 }, Point { x: 1, y: 0 }, Point { x: 2, y: 0 }],
        seq![Point { x: 0, y: 1 }, Point { x: 1, y: 1 }, Point { x: 2, y: 1 }],
        seq![Point { x: 0, y: 2 }, Point { x: 1, y: 2 }, Point { x: 2, y: 2 }],
        seq![Point { x: 0, y: 0 }, Point { x: 0, y: 1 }, Point { x: 0, y: 2 }],
        seq![Point { x: 1, y: 0 }, Point { x: 1, y: 1 }, Point { x: 1, y: 2 }],
        seq![Point { x: 2, y: 0 }, Point { x: 2, y: 1 }, Point { x: 2, y: 2 }],
        seq![Point { x: 0, y: 0 }, Point { x: 1, y: 1 }, Point { x: 2, y: 2 }],
        seq![Point { x: 2, y: 0 }, Point { x: 1, y: 1 }, Point { x: 0, y: 2 }],
    ]
}

/// The piece that holds all three cells of `line`, if one does.
pub open spec fn line_owner(cells: Seq<Option<Piece>>, line: Seq<Point>) -> Option<Piece> {
    let a = cells[cell_index(line[0])];
    let b = cells[cell_index(line[1])];
    let c = cells[cell_index(line[2])];
    if a is Some && a == b && b == c {
        a
    } else {
        None
    }
}

/// Whether each of the three cells of `line` holds `piece`.
pub open spec fn holds_line(cells: Seq<Option<Piece>>, line: Seq<Point>, piece: Piece) -> bool {
    forall|i: int| 0 <= i < 3 ==> cells[cell_index(#[trigger] line[i])] == Some(piece)
}

/// The owner of the winning line numbered `k`, if it has one.
pub open spec fn owner_of(cells: Seq<Option<Piece>>, k: int) -> Option<Piece> {
    line_owner(cells, winning_lines()[k])
}

/// The owner of the first owned line among the winning lines numbered `from`
/// and up.
pub open spec fn first_owner(cells: Seq<Option<Piece>>, from: int) -> Option<Piece>
    decreases 8 - from,
{
    if from < 0 || from >= 8 {
        None
    } else if owner_of(cells, from) is Some {
        owner_of(cells, from)
    } else {
        first_owner(cells, from + 1)
    }
}

/// The winner that a position shows: the owner of the first owned winning
/// line, if any line is owned.
pub open spec fn winner_of(cells: Seq<Option<Piece>>) -> Option<Piece> {
    first_owner(cells, 0)
}

/// The nine cells of the game, each empty or holding a piece.
#[derive(Clone, Copy, Debug, PartialEq, Eq)]
pub struct Board {
    pub pieces: [Option<Piece>; 9],
}

impl View for Board {
    type V = Seq<Option<Piece>>;

    open spec fn view(&self) -> Seq<Option<Piece>> {
        self.pieces@
    }
}

impl Board {
    /// What the cell at `point` holds.
    pub open spec fn spec_piece(self, point: Point) -> Option<Piece> {
        self@[cell_index(point)]
    }

    /// Returns the empty board.
    pub fn new() -> (board: Board)
        ensures
            board@ == Seq::new(9, |i: int| None::<Piece>),
    {
        let board = Board { pieces: [None;9] };
        assert(board@ =~= Seq::new(9, |i: int| None::<Piece>));
        board
    }

    /// Returns the position of the cell at `point` in the sequence of cells.
    pub fn index_from_point(point: &Point) -> (index: usize)
        ensures
            index == cell_index(*point),
            point.on_board() ==> index < 9,
    {
        (point.x as usize) + (point.y as usize) * 3
    }

    /// Returns what the cell at `point` holds.
    pub fn piece(&self, point: &Point) -> (cell: Option<Piece>)
        requires
            point.on_board(),
        ensures
            cell == self.spec_piece(*point),
    {
        self.pieces[Board::index_from_point(point)]
    }

    /// Writes `piece` into the cell at `point`, whatever the cell held, and
    /// leaves every other cell as it was.
    pub fn put(&mut self, point: &Point, piece: Piece)
        requires
            point.on_board(),
        ensures
            final(self)@ == old(self)@.update(cell_index(*point), Some(piece)),
    {
        self.pieces[Board::index_from_point(point)] = Some(piece);
    }

    /// Returns the winning lines as a table, in the order of `winning_lines`.
    pub fn lines() -> (table: [[Point; 3]; 8])
        ensures
            forall|k: int| 0 <= k < 8 ==> (#[trigger] table@[k])@ == winning_lines()[k],
    {
        let table = [
            [Point::new(0, 0), Point::new(1, 0), Point::new(2, 0)],
            [Point::new(0, 1), Point::new(1, 1), Point::new(2, 1)],
            [Point::new(0, 2), Point::new(1, 2), Point::new(2, 2)],
            [Point::new(0, 0), Point::new(0, 1), Point::new(0, 2)],
            [Point::new(1, 0), Point::new(1, 1), Point::new(1, 2)],
            [Point::new(2, 0), Point::new(2, 1), Point::new(2, 2)],
            [Point::new(0, 0), Point::new(1, 1), Point::new(2, 2)],
            [Point::new(2, 0), Point::new(1, 1), Point::new(0, 2)],
        ];
        assert forall|k: int| 0 <= k < 8 implies (#[trigger] table@[k])@ == winning_lines()[k] by {
            assert(table@[k]@ =~= winning_lines()[k]);
        }
        table
    }

    /// Returns the piece that holds all three cells of `line`, if one does.
    pub fn judge_line(&self, line: &[Point; 3]) -> (owner: Option<Piece>)
        requires
            forall|i: int| 0 <= i < 3 ==> (#[trigger] line@[i]).on_board(),
        ensures
            owner == line_owner(self@, line@),
    {
        let a = self.piece(&line[0]);
        let b = self.piece(&line[1]);
        let c = self.piece(&line[2]);
        match (a, b, c) {
            (Some(p), Some(q), Some(r)) => if p == q && q == r {
                Some(p)
            } else {
                None
            },
            _ => None,
        }
    }

    /// Returns the winner that the board shows, if any: the owner of the first
    /// winning line, in the order of `winning_lines`, whose three cells hold
    /// the same piece.
    pub fn judge(&self) -> (winner: Option<Piece>)
        ensures
            winner == winner_of(self@),
    {
        let lines = Board::lines();
        let mut k: usize = 0;
        while k < 8
            invariant
                k <= 8,
                forall|j: int| 0 <= j < 8 ==> (#[trigger] lines@[j])@ == winning_lines()[j],
                winner_of(self@) == first_owner(self@, k as int),
            decreases 8 - k,
        {
            proof {
                winning_lines_are_on_board();
            }
            if let Some(winner) = self.judge_line(&lines[k]) {
                return Some(winner);
            }
            k += 1;
        }
        None
    }
}

/// There are eight winning lines, each of three cells of the board.
pub proof fn winning_lines_are_on_board()
    ensures
        winning_lines().len() == 8,
        forall|k: int| 0 <= k < 8 ==> (#[trigger] winning_lines()[k]).len() == 3,
        forall|k: int, i: int|
            0 <= k < 8 && 0 <= i < 3 ==> (#[trigger] winning_lines()[k][i]).on_board(),
{
}

/// The cells of the board and the positions 0 to 8 correspond one to one:
/// different cells have different positions, and every position is that of
/// a cell.
pub proof fn cell_index_is_bijective()
    ensures
        forall|p: Point| p.on_board() ==> 0 <= #[trigger] cell_index(p) < 9,
        forall|p: Point, q: Point|
            p.on_board() && q.on_board() && cell_index(p) == cell_index(q) ==> p == q,
        forall|i: int|
            0 <= i < 9 ==> (#[trigger] cell_at(i)).on_board() && cell_index(cell_at(i)) == i,
{
}

/// After a piece is put on a cell, that cell reads back as the piece, and
/// every other cell reads as it did before.
pub proof fn put_then_piece(before: Board, after: Board, at: Point, piece: Piece, other: Point)
    requires
        at.on_board(),
        other.on_board(),
        after@ == before@.update(cell_index(at), Some(piece)),
    ensures
        after.spec_piece(at) == Some(piece),
        other != at ==> after.spec_piece(other) == before.spec_piece(other),
{
}

/// A piece owns a line exactly when each of the line's three cells holds it.
pub proof fn owner_holds_all_three(cells: Seq<Option<Piece>>, line: Seq<Point>, piece: Piece)
    ensures
        line_owner(cells, line) == Some(piece) <==> holds_line(cells, line, piece),
{
    if holds_line(cells, line, piece) {
        assert(cells[cell_index(line[0])] == Some(piece));
        assert(cells[cell_index(line[1])] == Some(piece));
        assert(cells[cell_index(line[2])] == Some(piece));
    }
}

/// What `first_owner` finds from line `from` on: the owner of a line before
/// which, from `from` on, no line is owned; or nothing, and then none of
/// those lines is owned.
pub proof fn first_owner_is_first(cells: Seq<Option<Piece>>, from: int)
    requires
        0 <= from <= 8,
    ensures
        match first_owner(cells, from) {
            Some(piece) => exists|k: int|
                from <= k < 8 && #[trigger] owner_of(cells, k) == Some(piece) && forall|j: int|
                    from <= j < k ==> #[trigger] owner_of(cells, j) is None,
            None => forall|k: int| from <= k < 8 ==> #[trigger] owner_of(cells, k) is None,
        },
    decreases 8 - from,
{
    if from < 8 {
        if owner_of(cells, from) is None {
            first_owner_is_first(cells, from + 1);
            if first_owner(cells, from) is Some {
                let k = choose|k: int|
                    from + 1 <= k < 8 && #[trigger] owner_of(cells, k) == first_owner(cells, from)
                        && forall|j: int|
                        from + 1 <= j < k ==> #[trigger] owner_of(cells, j) is None;
                assert(from <= k < 8 && owner_of(cells, k) == first_owner(cells, from)
                    && forall|j: int| from <= j < k ==> #[trigger] owner_of(cells, j) is None);
            }
        } else {
            assert(from <= from < 8 && owner_of(cells, from) == first_owner(cells, from)
                && forall|j: int| from <= j < from ==> #[trigger] owner_of(cells, j) is None);
        }
    }
}

/// The winner is the owner of the first owned winning line, and there is no
/// winner exactly when no winning line is owned.
pub proof fn winner_is_first_owner(cells: Seq<Option<Piece>>)
    ensures
        match winner_of(cells) {
            Some(piece) => exists|k: int|
                0 <= k < 8 && #[trigger] owner_of(cells, k) == Some(piece) && forall|j: int|
                    0 <= j < k ==> #[trigger] owner_of(cells, j) is None,
            None => forall|k: int| 0 <= k < 8 ==> #[trigger] owner_of(cells, k) is None,
        },
        winner_of(cells) is None <==> forall|k: int|
            0 <= k < 8 ==> #[trigger] owner_of(cells, k) is None,
{
    first_owner_is_first(cells, 0);
}

/// A winner holds three cells in a row, and where no piece holds all three
/// cells of any winning line, nobody has won.
pub proof fn winner_needs_three_in_a_row(cells: Seq<Option<Piece>>)
    ensures
        winner_of(cells) matches Some(piece) ==> exists|k: int|
            0 <= k < 8 && holds_line(cells, #[trigger] winning_lines()[k], piece),
        winner_of(cells) is None <==> forall|k: int, piece: Piece|
            0 <= k < 8 ==> !#[trigger] holds_line(cells, winning_lines()[k], piece),
{
    winner_is_first_owner(cells);
    assert forall|k: int, piece: Piece| 0 <= k < 8 implies (owner_of(cells, k) == Some(piece)
        <==> #[trigger] holds_line(cells, winning_lines()[k], piece)) by {
        owner_holds_all_three(cells, winning_lines()[k], piece);
    }
    if winner_of(cells) is None {
        assert forall|k: int, piece: Piece| 0 <= k < 8 implies !#[trigger] holds_line(
            cells,
            winning_lines()[k],
            piece,
        ) by {
            assert(owner_of(cells, k) is None);
        }
    } else {
        let piece = winner_of(cells)->0;
        let k = choose|k: int| 0 <= k < 8 && #[trigger] owner_of(cells, k) == Some(piece);
        assert(holds_line(cells, winning_lines()[k], piece));
    }
    if forall|k: int, piece: Piece|
        0 <= k < 8 ==> !#[trigger] holds_line(cells, winning_lines()[k], piece) {
        assert forall|k: int| 0 <= k < 8 implies #[trigger] owner_of(cells, k) is None by {
            if owner_of(cells, k) is Some {
                assert(holds_line(cells, winning_lines()[k], owner_of(cells, k)->0));
            }
        }
    }
}

/// Nobody has won on the empty board.
pub proof fn no_winner_on_empty_board()
    ensures
        winner_of(Seq::new(9, |i: int| None::<Piece>)) is None,
{
    let cells = Seq::new(9, |i: int| None::<Piece>);
    winning_lines_are_on_board();
    assert forall|k: int| 0 <= k < 8 implies #[trigger] owner_of(cells, k) is None by {
        assert(winning_lines()[k][0].on_board());
    }
    winner_is_first_owner(cells);
}

} // verus!
