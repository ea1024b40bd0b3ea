//! The interaction core of a chess board front end: coordinate mapping,
//! the two-click selection machine, and the per-frame render model.
//!
//! The crate draws nothing and knows no chess rules. A caller hands it plain
//! values obtained from its rules engine and its window, and receives what
//! to ask the engine next and what to put on screen.
//!
//! - [`square`]: squares and their names.
//! - [`pixel`]: pixels to squares and back.
//! - [`board`]: the board as the engine reports it.
//! - [`selection`]: the select-then-move machine.
//! - [`presenter`]: the render model of a frame.
//! - [`surface`]: the draw commands of a render model.

pub mod board;
pub mod pixel;
pub mod presenter;
pub mod selection;
pub mod square;
pub mod surface;
