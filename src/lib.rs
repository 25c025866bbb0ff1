//! A falling-block puzzle engine: piece shapes, the seven-piece bag, the
//! board and the game state machine.
pub mod bag;
pub mod board;
pub mod game;
pub mod tetrimino;
