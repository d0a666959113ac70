//! The two markers that players put on the board.

use vstd::prelude::*;

verus! {

/// One of the two markers of the game.
#[derive(Clone, Copy, Debug, PartialEq, Eq, Structural)]
pub enum Piece {
    O,
    X,
}

impl Piece {
    /// The piece of the opposing player.
    pub open spec fn spec_other(self) -> Piece {
        match self {
            Piece::O => Piece::X,
            Piece::X => Piece::O,
        }
    }

    /// The one-letter text that stands for the piece on screen.
    pub open spec fn spec_label(self) -> Seq<char> {
        match self {
            Piece::O => seq!['O'],
            Piece::X => seq!['X'],
        }
    }

    /// Returns the piece of the opposing player.
    pub fn other(self) -> (r: Piece)
        ensures
            r == self.spec_other(),
    {
        match self {
            Piece::O => Piece::X,
            Piece::X => Piece::O,
        }
    }

    /// Returns the one-letter label of the piece.
    pub fn label(self) -> (s: &'static str)
        ensures
            s@ == self.spec_label(),
    {
        match self {
            Piece::O => {
                proof {
                    reveal_strlit("O");
                }
                assert("O"@ =~= seq!['O']);
                "O"
            },
            Piece::X => {
                proof {
                    reveal_strlit("X");
                }
                assert("X"@ =~= seq!['X']);
                "X"
            },
        }
    }
}

/// Passing the turn twice gives it back to the same player, and passing it
/// once always changes the player.
pub proof fn other_is_an_involution(p: Piece)
    ensures
        p.spec_other().spec_other() == p,
        p.spec_other() != p,
{
}

} // verus!
