use vstd::prelude::*;

use crate::board::bitboard::Bitboard;
use crate::board::castle_rights::CastleRights;
use crate::board::color::Color;
use crate::board::direction::Direction;
use crate::board::file::File;
use crate::board::square::Square;

verus! {

/// The squares next to the squares of `bits`, along a file, a rank or a diagonal.
pub open spec fn king_attacks(bits: u64) -> u64 {
    Direction::North.shifted(bits) | Direction::West.shifted(bits) | Direction::South.shifted(bits)
        | Direction::East.shifted(bits) | Direction::NorthWest.shifted(bits)
        | Direction::SouthWest.shifted(bits) | Direction::SouthEast.shifted(bits)
        | Direction::NorthEast.shifted(bits)
}

/// The squares on which the king of a color lands when it castles: on file G by the king-side
/// right, on file C by the queen-side right, both on the first rank of the color.
pub open spec fn king_castling_targets(color: Color, castle_rights: CastleRights) -> u64 {
    let king_side = Square::spec_new(File::G, color.spec_first_rank()).bit();
    let queen_side = Square::spec_new(File::C, color.spec_first_rank()).bit();
    match castle_rights {
        CastleRights::NoSide => 0,
        CastleRights::KingSide => king_side,
        CastleRights::QueenSide => queen_side,
        CastleRights::BothSides => king_side | queen_side,
    }
}

/// Compute a king's movement. No castling moves included
pub fn king_moves(square: Square) -> (moves: Bitboard)
    ensures
        moves.0 == king_attacks(square.bit()),
{
    let board = square.into_bitboard();
    Direction::North.move_board(board) | Direction::West.move_board(board)
        | Direction::South.move_board(board) | Direction::East.move_board(board)
        | Direction::NorthWest.move_board(board) | Direction::SouthWest.move_board(board)
        | Direction::SouthEast.move_board(board) | Direction::NorthEast.move_board(board)
}

/// Compute a king's castling moves, given its [Color] and [CastleRights].
pub fn king_castling_moves(color: Color, castle_rights: CastleRights) -> (moves: Bitboard)
    ensures
        moves.0 == king_castling_targets(color, castle_rights),
{
    let rank = color.first_rank();

    let king_side_square = Square::new(File::G, rank);
    let queen_side_square = Square::new(File::C, rank);

    match castle_rights {
        CastleRights::NoSide => Bitboard::empty(),
        CastleRights::KingSide => king_side_square.into_bitboard(),
        CastleRights::QueenSide => queen_side_square.into_bitboard(),
        CastleRights::BothSides => king_side_square | queen_side_square,
    }
}

} // verus!
