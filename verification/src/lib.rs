//! Incremental encoding of chess positions for a neural evaluator.
//!
//! A position is encoded as a vector of 768 entries, one per feature (piece
//! kind, ownership, square), seen from the side to move. A move changes a
//! handful of entries; this crate classifies a move into those changes and
//! applies them to the vector and takes them back, so that a search can
//! evaluate the positions along a line without encoding each from scratch.

pub mod bit_move;
pub mod board;
pub mod incremental;
pub mod shallow_nnue;
