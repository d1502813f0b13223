//! A falling-block puzzle engine: board, pieces, move validation, line
//! clearing and the gravity state machine, with every rule stated as a
//! contract and proved.

pub mod board;
pub mod builder;
pub mod cell;
pub mod display;
pub mod game;
mod random;
pub mod tetromino;
pub mod tetrominoes;
