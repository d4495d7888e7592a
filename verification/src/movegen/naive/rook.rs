use vstd::prelude::*;

use crate::board::bitboard::Bitboard;
use crate::board::direction::Direction;
use crate::board::square::Square;

verus! {

/// The squares that rooks standing on `bits` attack: along each file and rank up to the edge of
/// the board, or up to the first of the `blockers`, which is attacked too.
pub open spec fn rook_attacks(bits: u64, blockers: u64) -> u64 {
    Direction::North.slid(bits, blockers) | Direction::West.slid(bits, blockers)
        | Direction::South.slid(bits, blockers) | Direction::East.slid(bits, blockers)
}

/// Compute a rook's movement given a set of blockers that cannot be moved past.
pub fn rook_moves(square: Square, blockers: Bitboard) -> (moves: Bitboard)
    ensures
        moves.0 == rook_attacks(square.bit(), blockers.0),
{
    let board = square.into_bitboard();
    Direction::North.slide_board_with_blockers(board, blockers)
        | Direction::West.slide_board_with_blockers(board, blockers)
        | Direction::South.slide_board_with_blockers(board, blockers)
        | Direction::East.slide_board_with_blockers(board, blockers)
}

} // verus!
