//! The rules of play: how a key press becomes an event, and what an event
//! does to the game.
//!
//! A game is modelled by its `GameView`: the cells of the board, the cell
//! under the cursor, the piece that moves next, and the winner. The function
//! `GameView::step` says what each event does to that model, and the
//! executable `Game::handle` is proved to do the same.

use vstd::prelude::*;
use crate::board::{cell_index, winner_of, Board};
use crate::cursor::{moved, Cursor};
use crate::piece::Piece;
use crate::point::Point;

verus! {

/// A key press, as far as the game tells keys apart.
#[derive(Clone, Copy, Debug, PartialEq, Eq, Structural)]
pub enum Key {
    /// A printable character.
    Char(char),
    Left,
    Right,
    Up,
    Down,
    /// Any other key.
    Other,
}

/// What a key press asks of the game.
#[derive(Clone, Copy, Debug, PartialEq, Eq, Structural)]
pub enum Event {
    Quit,
    Left,
    Right,
    Up,
    Down,
    Place,
    Ignored,
}

/// What the caller of `Game::handle` does next.
#[derive(Clone, Copy, Debug, PartialEq, Eq, Structural)]
pub enum Action {
    /// Show the game and wait for the next key.
    Continue,
    /// Leave the game.
    Quit,
}

impl Event {
    /// The event that a key stands for: `q` quits, the space bar places a
    /// piece, the arrows move the cursor, and every other key is ignored.
    pub open spec fn spec_from_key(key: Key) -> Event {
        match key {
            Key::Char(c) => if c == 'q' {
                Event::Quit
            } else if c == ' ' {
                Event::Place
            } else {
                Event::Ignored
            },
            Key::Left => Event::Left,
            Key::Right => Event::Right,
            Key::Up => Event::Up,
            Key::Down => Event::Down,
            Key::Other => Event::Ignored,
        }
    }

    /// Returns the event that `key` stands for.
    pub fn from_key(key: Key) -> (event: Event)
        ensures
            event == Event::spec_from_key(key),
    {
        match key {
            Key::Char(c) => if c == 'q' {
                Event::Quit
            } else if c == ' ' {
                Event::Place
            } else {
                Event::Ignored
            },
            Key::Left => Event::Left,
            Key::Right => Event::Right,
            Key::Up => Event::Up,
            Key::Down => Event::Down,
            Key::Other => Event::Ignored,
        }
    }
}

/// The number of cells that hold a piece.
pub open spec fn occupied(cells: Seq<Option<Piece>>) -> nat
    decreases cells.len(),
{
    if cells.len() == 0 {
        0
    } else {
        occupied(cells.drop_last()) + if cells.last() is Some {
            1nat
        } else {
            0nat
        }
    }
}

/// The piece that moves once `placements` pieces have been placed: X begins,
/// and the players alternate.
pub open spec fn turn_after(placements: nat) -> Piece {
    if placements % 2 == 0 {
        Piece::X
    } else {
        Piece::O
    }
}

/// The mathematical model of a game.
pub struct GameView {
    /// The nine cells, row after row.
    pub cells: Seq<Option<Piece>>,
    /// The cell under the cursor.
    pub cursor: Point,
    /// The piece that the next placement puts down.
    pub next_turn: Piece,
    /// The winner, once there is one.
    pub winner: Option<Piece>,
}

impl GameView {
    /// What holds of every game: the board has nine cells, the cursor is on
    /// it, the winner is the one that the board shows, and the turn is the
    /// one that follows from the number of pieces placed.
    pub open spec fn wf(self) -> bool {
        &&& self.cells.len() == 9
        &&& self.cursor.on_board()
        &&& self.winner == winner_of(self.cells)
        &&& self.next_turn == turn_after(occupied(self.cells))
    }

    /// The game before the first key press.
    pub open spec fn initial() -> GameView {
        GameView {
            cells: Seq::new(9, |i: int| None::<Piece>),
            cursor: Point { x: 0, y: 0 },
            next_turn: Piece::X,
            winner: None,
        }
    }

    /// Whether a placement is legal: nobody has won yet and the cell under
    /// the cursor is empty.
    pub open spec fn accepts_placement(self) -> bool {
        self.winner is None && self.cells[cell_index(self.cursor)] is None
    }

    /// The game after the piece to move is put on the cell under the cursor:
    /// the turn passes to the other piece and the winner is judged anew.
    pub open spec fn placed(self) -> GameView {
        let cells = self.cells.update(cell_index(self.cursor), Some(self.next_turn));
        GameView {
            cells,
            cursor: self.cursor,
            next_turn: self.next_turn.spec_other(),
            winner: winner_of(cells),
        }
    }

    /// The game with the cursor moved by one step, where the board allows it.
    pub open spec fn with_cursor_moved(self, dx: int, dy: int) -> GameView {
        GameView { cursor: moved(self.cursor, dx, dy), ..self }
    }

    /// The game after `event`. An arrow moves the cursor and nothing else; a
    /// placement is carried out if it is legal and is ignored otherwise;
    /// quitting and ignored keys change nothing.
    pub open spec fn step(self, event: Event) -> GameView {
        match event {
            Event::Left => self.with_cursor_moved(-1, 0),
            Event::Right => self.with_cursor_moved(1, 0),
            Event::Up => self.with_cursor_moved(0, -1),
            Event::Down => self.with_cursor_moved(0, 1),
            Event::Place => if self.accepts_placement() {
                self.placed()
            } else {
                self
            },
            Event::Quit | Event::Ignored => self,
        }
    }
}

/// A game in progress: the board, the cursor, whose turn it is, and the
/// winner once there is one.
#[derive(Clone, Copy, Debug, PartialEq, Eq)]
pub struct Game {
    board: Board,
    cursor: Cursor,
    next_turn: Piece,
    winner: Option<Piece>,
}

impl View for Game {
    type V = GameView;

    closed spec fn view(&self) -> GameView {
        GameView {
            cells: self.board@,
            cursor: self.cursor@,
            next_turn: self.next_turn,
            winner: self.winner,
        }
    }
}

impl Game {
    /// The game's invariant, which `new` establishes and every method keeps.
    pub open spec fn wf(&self) -> bool {
        self@.wf()
    }

    /// Returns a new game: an empty board, the cursor on the top left cell,
    /// X to move, no winner.
    pub fn new() -> (game: Game)
        ensures
            game.wf(),
            game@ == GameView::initial(),
    {
        let game = Game {
            board: Board::new(),
            cursor: Cursor::new(),
            next_turn: Piece::X,
            winner: None,
        };
        proof {
            initial_game_is_well_formed();
        }
        game
    }

    /// Returns the board.
    pub fn board(&self) -> (board: &Board)
        ensures
            board@ == self@.cells,
    {
        &self.board
    }

    /// Returns the cell under the cursor.
    pub fn cursor(&self) -> (p: Point)
        ensures
            p == self@.cursor,
    {
        self.cursor.position()
    }

    /// Returns the piece that the next placement puts down.
    pub fn next_turn(&self) -> (piece: Piece)
        ensures
            piece == self@.next_turn,
    {
        self.next_turn
    }

    /// Returns the winner, if the game is won.
    pub fn winner(&self) -> (winner: Option<Piece>)
        ensures
            winner == self@.winner,
    {
        self.winner
    }

    /// Puts the piece to move on the cell under the cursor if the placement
    /// is legal, and says whether it did. A refused placement changes
    /// nothing.
    pub fn place(&mut self) -> (placed: bool)
        requires
            old(self).wf(),
        ensures
            final(self).wf(),
            placed == old(self)@.accepts_placement(),
            final(self)@ == old(self)@.step(Event::Place),
    {
        if self.winner.is_none() {
            let point = self.cursor.position();
            if self.board.piece(&point).is_none() {
                proof {
                    occupied_grows_by_one(self.board@, cell_index(point), self.next_turn);
                }
                self.board.put(&point, self.next_turn);
                self.next_turn = self.next_turn.other();
                self.winner = self.board.judge();
                return true;
            }
        }
        false
    }

    /// Applies one event to the game and says what the caller does next:
    /// leave on `Event::Quit`, go on otherwise.
    pub fn handle(&mut self, event: Event) -> (action: Action)
        requires
            old(self).wf(),
        ensures
            final(self).wf(),
            final(self)@ == old(self)@.step(event),
            action == if event == Event::Quit {
                Action::Quit
            } else {
                Action::Continue
            },
    {
        match event {
            Event::Quit => {
                return Action::Quit;
            },
            Event::Left => self.cursor.move_with(-1, 0),
            Event::Right => self.cursor.move_with(1, 0),
            Event::Up => self.cursor.move_with(0, -1),
            Event::Down => self.cursor.move_with(0, 1),
            Event::Place => {
                self.place();
            },
            Event::Ignored => {},
        }
        Action::Continue
    }
}

/// A board of `n` empty cells holds no piece.
pub proof fn empty_cells_hold_nothing(n: nat)
    ensures
        occupied(Seq::new(n, |i: int| None::<Piece>)) == 0,
    decreases n,
{
    if n > 0 {
        assert(Seq::new(n, |i: int| None::<Piece>).drop_last() =~= Seq::new(
            (n - 1) as nat,
            |i: int| None::<Piece>,
        ));
        empty_cells_hold_nothing((n - 1) as nat);
    }
}

/// Putting a piece on an empty cell raises the number of occupied cells by
/// one.
pub proof fn occupied_grows_by_one(cells: Seq<Option<Piece>>, index: int, piece: Piece)
    requires
        0 <= index < cells.len(),
        cells[index] is None,
    ensures
        occupied(cells.update(index, Some(piece))) == occupied(cells) + 1,
    decreases cells.len(),
{
    let after = cells.update(index, Some(piece));
    if index == cells.len() - 1 {
        assert(after.drop_last() =~= cells.drop_last());
    } else {
        assert(after.drop_last() =~= cells.drop_last().update(index, Some(piece)));
        occupied_grows_by_one(cells.drop_last(), index, piece);
    }
}

/// The game before the first key press satisfies the invariant.
pub proof fn initial_game_is_well_formed()
    ensures
        GameView::initial().wf(),
{
    empty_cells_hold_nothing(9);
    crate::board::no_winner_on_empty_board();
}

/// Every event leads from a well-formed game to a well-formed game.
pub proof fn step_preserves_wf(game: GameView, event: Event)
    requires
        game.wf(),
    ensures
        game.step(event).wf(),
{
    if event == Event::Place && game.accepts_placement() {
        occupied_grows_by_one(game.cells, cell_index(game.cursor), game.next_turn);
    }
}

/// A placement on an occupied cell changes nothing: the cell keeps its piece
/// and the turn stays with the same player.
pub proof fn occupied_cell_refuses_placement(game: GameView)
    requires
        game.cells[cell_index(game.cursor)] is Some,
    ensures
        !game.accepts_placement(),
        game.step(Event::Place) == game,
{
}

/// Once the game is won, no event changes the board, the turn or the winner.
pub proof fn won_game_is_final(game: GameView, event: Event)
    requires
        game.winner is Some,
    ensures
        game.step(event).cells == game.cells,
        game.step(event).next_turn == game.next_turn,
        game.step(event).winner == game.winner,
{
}

/// A cell that holds a piece holds the same piece after any event, and an
/// event fills at most the cell under the cursor.
pub proof fn cells_never_revert(game: GameView, event: Event, index: int)
    requires
        game.wf(),
        0 <= index < 9,
    ensures
        game.cells[index] is Some ==> game.step(event).cells[index] == game.cells[index],
        index != cell_index(game.cursor) ==> game.step(event).cells[index] == game.cells[index],
{
}

/// The game after the events of `events`, one after the other, from the
/// initial game.
pub open spec fn play(events: Seq<Event>) -> GameView
    decreases events.len(),
{
    if events.len() == 0 {
        GameView::initial()
    } else {
        play(events.drop_last()).step(events.last())
    }
}

/// The number of placements among `events` that were carried out: those that
/// came when nobody had won and the cell under the cursor was empty.
pub open spec fn placements(events: Seq<Event>) -> nat
    decreases events.len(),
{
    if events.len() == 0 {
        0
    } else {
        placements(events.drop_last()) + if events.last() == Event::Place && play(
            events.drop_last(),
        ).accepts_placement() {
            1nat
        } else {
            0nat
        }
    }
}

/// The players alternate, X first: after any events, X is to move if the
/// number of placements carried out is even, and O if it is odd. Placements
/// that were refused, and all other events, do not count. The board then
/// holds as many pieces as placements were carried out.
pub proof fn turns_alternate(events: Seq<Event>)
    ensures
        play(events).wf(),
        play(events).next_turn == turn_after(placements(events)),
        occupied(play(events).cells) == placements(events),
    decreases events.len(),
{
    if events.len() == 0 {
        initial_game_is_well_formed();
        empty_cells_hold_nothing(9);
    } else {
        let before = play(events.drop_last());
        turns_alternate(events.drop_last());
        step_preserves_wf(before, events.last());
        if events.last() == Event::Place && before.accepts_placement() {
            occupied_grows_by_one(before.cells, cell_index(before.cursor), before.next_turn);
        }
    }
}

} // verus!
