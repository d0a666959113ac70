//! Tic-tac-toe for two players on a 3x3 board: the pieces, the board and its
//! winning lines, the cursor that selects a cell, and the rules that turn key
//! presses into moves. Every function is verified against a contract stated
//! over mathematical models of the game.

pub mod board;
pub mod cursor;
pub mod game;
pub mod piece;
pub mod point;
pub mod screen;
