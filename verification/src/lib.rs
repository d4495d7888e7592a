//! Chess positions and move generation on bitboards.

pub mod board;
pub mod error;
pub mod fen;
pub mod movegen;
pub mod utils;
