use vstd::prelude::*;

use crate::board::bitboard::Bitboard;
use crate::board::direction::Direction;
use crate::board::square::Square;

verus! {

/// The squares one knight's jump away from the squares of `bits`.
pub open spec fn knight_attacks(bits: u64) -> u64 {
    Direction::NorthNorthWest.shifted(bits) | Direction::NorthWestWest.shifted(bits)
        | Direction::SouthWestWest.shifted(bits) | Direction::SouthSouthWest.shifted(bits)
        | Direction::SouthSouthEast.shifted(bits) | Direction::SouthEastEast.shifted(bits)
        | Direction::NorthEastEast.shifted(bits) | Direction::NorthNorthEast.shifted(bits)
}

/// Compute a knight's movement.
pub fn knight_moves(square: Square) -> (moves: Bitboard)
    ensures
        moves.0 == knight_attacks(square.bit()),
{
    let board = square.into_bitboard();
    Direction::NorthNorthWest.move_board(board) | Direction::NorthWestWest.move_board(board)
        | Direction::SouthWestWest.move_board(board) | Direction::SouthSouthWest.move_board(board)
        | Direction::SouthSouthEast.move_board(board) | Direction::SouthEastEast.move_board(board)
        | Direction::NorthEastEast.move_board(board) | Direction::NorthNorthEast.move_board(board)
}

} // verus!
