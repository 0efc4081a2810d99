//! A two-player tic-tac-toe core: a nine-cell board, a strictly alternating
//! turn, and an outcome evaluator that ends the match on a line or a full
//! board.

pub mod game;
pub mod grid;
pub mod proofs;
pub mod util;
