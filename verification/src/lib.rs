//! Core engine for a falling-block puzzle game: the locked playfield, the
//! seven tetromino shapes with their rotation states, collision resolution
//! (moves, rotations with wall kicks, hard drops), the line-clearing engine,
//! and the tick-driven game state machine that composes them.
//!
//! Rendering, input devices, audio and window management are outside this
//! crate; a shell feeds `tick` with elapsed time and queued input events and
//! reads back an immutable snapshot of the board and the active piece.

pub mod board;
pub mod piece;
pub mod collision;
pub mod clearing;
pub mod engine;
