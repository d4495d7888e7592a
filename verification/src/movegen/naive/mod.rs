pub mod bishop;
pub mod king;
pub mod knight;
pub mod pawn;
pub mod rook;

pub use bishop::{bishop_attacks, bishop_moves};
pub use king::{king_attacks, king_castling_moves, king_castling_targets, king_moves};
pub use knight::{knight_attacks, knight_moves};
pub use pawn::{
    en_passant_origins, neighbours, on_back_rank, pawn_captures, pawn_moves, pawn_pushes,
    pawn_targets,
};
pub use rook::{rook_attacks, rook_moves};
