pub mod moves;
pub mod naive;
pub mod wizardry;

pub use moves::{
    bishop_magics, rook_magics, PreRolledRng,
    bishop_moves, king_moves, king_side_castle_blockers, king_side_castle_squares, knight_moves,
    pawn_attacks, pawn_moves, pawn_quiet_moves, queen_moves, queen_side_castle_blockers,
    queen_side_castle_squares, rook_moves,
};
