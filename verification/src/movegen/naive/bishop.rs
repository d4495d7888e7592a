use vstd::prelude::*;

use crate::board::bitboard::Bitboard;
use crate::board::direction::Direction;
use crate::board::square::Square;

verus! {

/// The squares that bishops standing on `bits` attack: along each diagonal up to the edge of the
/// board, or up to the first of the `blockers`, which is attacked too.
pub open spec fn bishop_attacks(bits: u64, blockers: u64) -> u64 {
    Direction::NorthWest.slid(bits, blockers) | Direction::SouthWest.slid(bits, blockers)
        | Direction::SouthEast.slid(bits, blockers) | Direction::NorthEast.slid(bits, blockers)
}

/// Compute a bishop's movement given a set of blockers that cannot be moved past.
pub fn bishop_moves(square: Square, blockers: Bitboard) -> (moves: Bitboard)
    ensures
        moves.0 == bishop_attacks(square.bit(), blockers.0),
{
    let board = square.into_bitboard();
    Direction::NorthWest.slide_board_with_blockers(board, blockers)
        | Direction::SouthWest.slide_board_with_blockers(board, blockers)
        | Direction::SouthEast.slide_board_with_blockers(board, blockers)
        | Direction::NorthEast.slide_board_with_blockers(board, blockers)
}

} // verus!
