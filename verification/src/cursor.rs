//! The cursor: the cell that the next placement goes to.

use vstd::prelude::*;
use crate::point::Point;

verus! {

/// Where a step of `dx` columns and `dy` rows from `p` leads: to the cell that
/// far away if the board has one there, else nowhere, and the result is `p`
/// itself. A step that leaves the board on one axis is refused on both.
pub open spec fn moved(p: Point, dx: int, dy: int) -> Point {
    if 0 <= p.x + dx < 3 && 0 <= p.y + dy < 3 {
        Point { x: (p.x + dx) as u8, y: (p.y + dy) as u8 }
    } else {
        p
    }
}

/// The highlighted cell. It always lies on the board.
#[derive(Clone, Copy, Debug, PartialEq, Eq)]
pub struct Cursor {
    x: u8,
    y: u8,
}

impl View for Cursor {
    type V = Point;

    closed spec fn view(&self) -> Point {
        Point { x: self.x, y: self.y }
    }
}

impl Cursor {
    /// The cursor's invariant: it points at a cell of the board.
    pub open spec fn wf(&self) -> bool {
        self@.on_board()
    }

    /// Returns a cursor on the top left cell.
    pub fn new() -> (cursor: Cursor)
        ensures
            cursor.wf(),
            cursor@ == (Point { x: 0, y: 0 }),
    {
        Cursor { x: 0, y: 0 }
    }

    /// Returns the cell that the cursor points at.
    pub fn position(&self) -> (p: Point)
        ensures
            p == self@,
    {
        Point::new(self.x, self.y)
    }

    /// Moves the cursor by `dx` columns and `dy` rows if that cell is on the
    /// board, and leaves it where it is otherwise.
    pub fn move_with(&mut self, dx: i8, dy: i8)
        requires
            old(self).wf(),
        ensures
            final(self).wf(),
            final(self)@ == moved(old(self)@, dx as int, dy as int),
    {
        let x: i16 = (self.x as i16) + (dx as i16);
        let y: i16 = (self.y as i16) + (dy as i16);
        if x >= 0 && x < 3 && y >= 0 && y < 3 {
            self.x = x as u8;
            self.y = y as u8;
        }
    }
}

/// Whatever step is asked for, the cursor either shifts by exactly that step
/// or stays where it is, and it never leaves the board. It stays exactly when
/// the step would lead off the board, or is no step at all.
pub proof fn move_is_exact_or_refused(p: Point, dx: int, dy: int)
    requires
        p.on_board(),
    ensures
        moved(p, dx, dy).on_board(),
        moved(p, dx, dy) == p || (moved(p, dx, dy).x == p.x + dx && moved(p, dx, dy).y == p.y + dy),
        moved(p, dx, dy) == p <==> !(0 <= p.x + dx < 3 && 0 <= p.y + dy < 3) || (dx == 0 && dy == 0),
{
}

} // verus!
