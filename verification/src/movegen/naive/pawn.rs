use vstd::prelude::*;

use crate::board::bitboard::Bitboard;
use crate::board::color::Color;
use crate::board::direction::Direction;
use crate::board::rank::Rank;
use crate::board::square::Square;

verus! {

/// Whether a square lies on the first or on the last rank, where no pawn can stand.
pub open spec fn on_back_rank(square: Square) -> bool {
    square.spec_rank() == Rank::First || square.spec_rank() == Rank::Eighth
}

/// The squares to which a pawn can advance: none where the square in front of it is one of the
/// `blockers`; else that square, and from the second rank of its color the square on the fourth
/// rank as well.
pub open spec fn pawn_pushes(color: Color, square: Square, blockers: u64) -> u64 {
    let first_push = color.spec_forward_direction().shifted(square.bit());
    let second_push = if square.spec_rank() == color.spec_second_rank() {
        Square::spec_new(square.spec_file(), color.spec_fourth_rank()).bit()
    } else {
        0
    };
    if on_back_rank(square) || first_push & blockers != 0 {
        0
    } else {
        first_push | second_push
    }
}

/// The squares that a pawn attacks from a square, whatever the rank of the square: those one
/// rank ahead of it on the two files next to its own, as far as they are on the board.
pub open spec fn pawn_targets(color: Color, square: Square) -> u64 {
    let advanced = color.spec_forward_direction().shifted(square.bit());
    Direction::West.shifted(advanced) | Direction::East.shifted(advanced)
}

/// The squares beside `bits`, to the west and to the east.
pub open spec fn neighbours(bits: u64) -> u64 {
    Direction::West.shifted(bits) | Direction::East.shifted(bits)
}

/// Compute a pawn's movement given its color, and a set of blockers that cannot be moved past.
pub fn pawn_moves(color: Color, square: Square, blockers: Bitboard) -> (moves: Bitboard)
    ensures
        moves.0 == pawn_pushes(color, square, blockers.0),
{
    if (square.rank() == Rank::First) || (square.rank() == Rank::Eighth) {
        return Bitboard::empty();
    }
    let dir = color.forward_direction();

    let first_push = dir.move_board(square.into_bitboard());
    let second_push = if square.rank() == color.second_rank() {
        Square::new(square.file(), color.fourth_rank()).into_bitboard()
    } else {
        Bitboard::empty()
    };

    if (first_push & blockers).is_empty() {
        first_push | second_push
    } else {
        Bitboard::empty()
    }
}

/// Computes the set of squares a pawn can capture, given its color.
pub fn pawn_captures(color: Color, square: Square) -> (captures: Bitboard)
    ensures
        captures.0 == pawn_targets(color, square),
{
    let dir = color.forward_direction();

    let advanced = dir.move_board(square.into_bitboard());

    let attack_west = Direction::West.move_board(advanced);
    let attack_east = Direction::East.move_board(advanced);

    attack_west | attack_east
}

/// Computes the set of squares that can capture this one *en-passant*.
pub fn en_passant_origins(square: Square) -> (origins: Bitboard)
    ensures
        origins.0 == neighbours(square.bit()),
{
    let board = square.into_bitboard();

    let origin_west = Direction::West.move_board(board);
    let origin_east = Direction::East.move_board(board);

    origin_west | origin_east
}

} // verus!
