use vstd::prelude::*;

use crate::board::bitboard::{has_bit, popcount};
use crate::board::chess_board::ChessBoard;
use crate::board::color::Color;
use crate::board::direction::{
    lemma_shift_moves_squares, lemma_slide_symmetric, lemma_step_symmetric, Direction,
};
use crate::board::piece::Piece;
use crate::board::square::Square;
use crate::movegen::naive::{
    bishop_attacks, king_attacks, knight_attacks, pawn_targets, rook_attacks,
};
use crate::utils::bits::lemma_has_bit_algebra;

verus! {

/// The squares that a piece of a type and color attacks from a square, given the blockers.
pub open spec fn piece_attacks(piece: Piece, color: Color, square: Square, blockers: u64) -> u64 {
    match piece {
        Piece::King => king_attacks(square.bit()),
        Piece::Queen => bishop_attacks(square.bit(), blockers) | rook_attacks(
            square.bit(),
            blockers,
        ),
        Piece::Rook => rook_attacks(square.bit(), blockers),
        Piece::Bishop => bishop_attacks(square.bit(), blockers),
        Piece::Knight => knight_attacks(square.bit()),
        Piece::Pawn => pawn_targets(color, square),
    }
}

impl ChessBoard {
    /// Whether a square holds a piece of the opponent of a color, other than the king, that
    /// attacks the square of the king of that color.
    pub open spec fn attacks_king_from(self, color: Color, from: Square) -> bool {
        exists|piece: Piece|
            piece != Piece::King && has_bit(
                self.spec_occupancy(piece, color.opponent()),
                from.spec_index() as int,
            ) && has_bit(
                #[trigger] piece_attacks(
                    piece,
                    color.opponent(),
                    from,
                    self.combined_occupancy.0,
                ),
                self.king_square(color).spec_index() as int,
            )
    }
}

/// A bishop on one square attacks another exactly when a bishop there attacks the first.
pub proof fn lemma_bishop_symmetric(from: int, to: int, blockers: u64)
    requires
        0 <= from < 64,
        0 <= to < 64,
    ensures
        has_bit(bishop_attacks(1u64 << (from as u64), blockers), to) <==> has_bit(
            bishop_attacks(1u64 << (to as u64), blockers),
            from,
        ),
{
    let (here, there) = (1u64 << (from as u64), 1u64 << (to as u64));
    lemma_slide_symmetric(Direction::NorthWest, from, to, blockers);
    lemma_slide_symmetric(Direction::SouthWest, from, to, blockers);
    lemma_slide_symmetric(Direction::SouthEast, from, to, blockers);
    lemma_slide_symmetric(Direction::NorthEast, from, to, blockers);
    lemma_union_of_four(
        Direction::NorthWest.slid(here, blockers),
        Direction::SouthWest.slid(here, blockers),
        Direction::SouthEast.slid(here, blockers),
        Direction::NorthEast.slid(here, blockers),
        to,
    );
    lemma_union_of_four(
        Direction::NorthWest.slid(there, blockers),
        Direction::SouthWest.slid(there, blockers),
        Direction::SouthEast.slid(there, blockers),
        Direction::NorthEast.slid(there, blockers),
        from,
    );
}

/// A rook on one square attacks another exactly when a rook there attacks the first.
pub proof fn lemma_rook_symmetric(from: int, to: int, blockers: u64)
    requires
        0 <= from < 64,
        0 <= to < 64,
    ensures
        has_bit(rook_attacks(1u64 << (from as u64), blockers), to) <==> has_bit(
            rook_attacks(1u64 << (to as u64), blockers),
            from,
        ),
{
    let (here, there) = (1u64 << (from as u64), 1u64 << (to as u64));
    lemma_slide_symmetric(Direction::North, from, to, blockers);
    lemma_slide_symmetric(Direction::West, from, to, blockers);
    lemma_slide_symmetric(Direction::South, from, to, blockers);
    lemma_slide_symmetric(Direction::East, from, to, blockers);
    lemma_union_of_four(
        Direction::North.slid(here, blockers),
        Direction::West.slid(here, blockers),
        Direction::South.slid(here, blockers),
        Direction::East.slid(here, blockers),
        to,
    );
    lemma_union_of_four(
        Direction::North.slid(there, blockers),
        Direction::West.slid(there, blockers),
        Direction::South.slid(there, blockers),
        Direction::East.slid(there, blockers),
        from,
    );
}

/// A knight on one square attacks another exactly when a knight there attacks the first.
pub proof fn lemma_knight_symmetric(from: int, to: int)
    requires
        0 <= from < 64,
        0 <= to < 64,
    ensures
        has_bit(knight_attacks(1u64 << (from as u64)), to) <==> has_bit(
            knight_attacks(1u64 << (to as u64)),
            from,
        ),
{
    let (here, there) = (1u64 << (from as u64), 1u64 << (to as u64));
    lemma_step_symmetric(Direction::NorthNorthWest, from, to);
    lemma_step_symmetric(Direction::NorthWestWest, from, to);
    lemma_step_symmetric(Direction::SouthWestWest, from, to);
    lemma_step_symmetric(Direction::SouthSouthWest, from, to);
    lemma_step_symmetric(Direction::SouthSouthEast, from, to);
    lemma_step_symmetric(Direction::SouthEastEast, from, to);
    lemma_step_symmetric(Direction::NorthEastEast, from, to);
    lemma_step_symmetric(Direction::NorthNorthEast, from, to);
    lemma_step_symmetric(Direction::NorthNorthWest, to, from);
    lemma_step_symmetric(Direction::NorthWestWest, to, from);
    lemma_step_symmetric(Direction::SouthWestWest, to, from);
    lemma_step_symmetric(Direction::SouthSouthWest, to, from);
    lemma_step_symmetric(Direction::SouthSouthEast, to, from);
    lemma_step_symmetric(Direction::SouthEastEast, to, from);
    lemma_step_symmetric(Direction::NorthEastEast, to, from);
    lemma_step_symmetric(Direction::NorthNorthEast, to, from);
    lemma_union_of_four(
        Direction::NorthNorthWest.shifted(here),
        Direction::NorthWestWest.shifted(here),
        Direction::SouthWestWest.shifted(here),
        Direction::SouthSouthWest.shifted(here),
        to,
    );
    lemma_union_of_four(
        Direction::NorthNorthWest.shifted(there),
        Direction::NorthWestWest.shifted(there),
        Direction::SouthWestWest.shifted(there),
        Direction::SouthSouthWest.shifted(there),
        from,
    );
    let low_here = Direction::NorthNorthWest.shifted(here) | Direction::NorthWestWest.shifted(here)
        | Direction::SouthWestWest.shifted(here) | Direction::SouthSouthWest.shifted(here);
    let low_there = Direction::NorthNorthWest.shifted(there) | Direction::NorthWestWest.shifted(
        there,
    ) | Direction::SouthWestWest.shifted(there) | Direction::SouthSouthWest.shifted(there);
    lemma_has_bit_algebra(low_here, Direction::SouthSouthEast.shifted(here), 0, to);
    lemma_has_bit_algebra(
        low_here | Direction::SouthSouthEast.shifted(here),
        Direction::SouthEastEast.shifted(here),
        0,
        to,
    );
    lemma_has_bit_algebra(
        low_here | Direction::SouthSouthEast.shifted(here) | Direction::SouthEastEast.shifted(here),
        Direction::NorthEastEast.shifted(here),
        0,
        to,
    );
    lemma_has_bit_algebra(
        low_here | Direction::SouthSouthEast.shifted(here) | Direction::SouthEastEast.shifted(here)
            | Direction::NorthEastEast.shifted(here),
        Direction::NorthNorthEast.shifted(here),
        0,
        to,
    );
    lemma_has_bit_algebra(low_there, Direction::SouthSouthEast.shifted(there), 0, from);
    lemma_has_bit_algebra(
        low_there | Direction::SouthSouthEast.shifted(there),
        Direction::SouthEastEast.shifted(there),
        0,
        from,
    );
    lemma_has_bit_algebra(
        low_there | Direction::SouthSouthEast.shifted(there) | Direction::SouthEastEast.shifted(
            there,
        ),
        Direction::NorthEastEast.shifted(there),
        0,
        from,
    );
    lemma_has_bit_algebra(
        low_there | Direction::SouthSouthEast.shifted(there) | Direction::SouthEastEast.shifted(
            there,
        ) | Direction::NorthEastEast.shifted(there),
        Direction::NorthNorthEast.shifted(there),
        0,
        from,
    );
}

/// A square lies in the union of four boards exactly when it lies in one of them.
proof fn lemma_union_of_four(a: u64, b: u64, c: u64, d: u64, index: int)
    ensures
        has_bit(a | b | c | d, index) <==> has_bit(a, index) || has_bit(b, index) || has_bit(
            c,
            index,
        ) || has_bit(d, index),
{
    lemma_has_bit_algebra(a, b, 0, index);
    lemma_has_bit_algebra(a | b, c, 0, index);
    lemma_has_bit_algebra(a | b | c, d, 0, index);
}

/// The squares that a pawn attacks from a square: those one rank ahead on the files next to its
/// own.
pub proof fn lemma_pawn_targets(color: Color, from: Square, to: int)
    ensures
        has_bit(pawn_targets(color, from), to) <==> {
            let ahead = if color == Color::White {
                1int
            } else {
                -1int
            };
            &&& 0 <= to < 64
            &&& to % 8 == from.spec_index() % 8 + ahead
            &&& to / 8 == from.spec_index() / 8 + 1 || to / 8 == from.spec_index() / 8 - 1
        },
{
    let forward = color.spec_forward_direction();
    let at = from.spec_index() as int;
    let ahead = at + forward.rank_step();
    let advanced = forward.shifted(from.bit());
    crate::board::direction::lemma_shifted_single(forward, at);
    lemma_has_bit_algebra(
        Direction::West.shifted(advanced),
        Direction::East.shifted(advanced),
        0,
        to,
    );
    lemma_has_bit_algebra(0, 0, 0, to);
    if 0 <= at % 8 + forward.rank_step() < 8 {
        if 0 <= to < 64 {
            lemma_step_symmetric(Direction::West, ahead, to);
            lemma_step_symmetric(Direction::East, ahead, to);
        }
    } else {
        lemma_shift_moves_squares(Direction::West, 0, to);
        lemma_shift_moves_squares(Direction::East, 0, to);
        lemma_has_bit_algebra(0, 0, 0, to + 8);
        lemma_has_bit_algebra(0, 0, 0, to - 8);
    }
}

/// The pieces that [ChessBoard::checkers_of] reports are the pieces of the opponent, other than
/// the king, that attack the king: a square holds a checker exactly when it holds such a piece
/// whose attacks from that square reach the king. This holds on every board with one king of
/// the color, and for every square.
pub proof fn lemma_checkers_attack_the_king(board: ChessBoard, color: Color, from: Square)
    requires
        popcount(board.spec_occupancy(Piece::King, color)) == 1,
    ensures
        has_bit(board.checkers_of(color), from.spec_index() as int) <==> board.attacks_king_from(
            color,
            from,
        ),
{
    let king = board.king_square(color);
    let opponent = color.opponent();
    let blockers = board.combined_occupancy.0;
    let (k, s) = (king.spec_index() as int, from.spec_index() as int);
    let queens = board.spec_occupancy(Piece::Queen, opponent);
    let bishops = board.spec_occupancy(Piece::Bishop, opponent);
    let rooks = board.spec_occupancy(Piece::Rook, opponent);
    let knights = board.spec_occupancy(Piece::Knight, opponent);
    let pawns = board.spec_occupancy(Piece::Pawn, opponent);
    let diagonal = bishop_attacks(king.bit(), blockers);
    let straight = rook_attacks(king.bit(), blockers);
    let jumps = knight_attacks(king.bit());
    let targets = pawn_targets(color, king);
    lemma_bishop_symmetric(k, s, blockers);
    lemma_rook_symmetric(k, s, blockers);
    lemma_knight_symmetric(k, s);
    lemma_has_bit_algebra(queens, bishops, 0, s);
    lemma_has_bit_algebra(queens | bishops, diagonal, 0, s);
    lemma_has_bit_algebra(queens, rooks, 0, s);
    lemma_has_bit_algebra(queens | rooks, straight, 0, s);
    lemma_has_bit_algebra(knights, jumps, 0, s);
    lemma_has_bit_algebra(pawns, targets, 0, s);
    lemma_union_of_four(
        (queens | bishops) & diagonal,
        (queens | rooks) & straight,
        knights & jumps,
        pawns & targets,
        s,
    );
    lemma_has_bit_algebra(
        bishop_attacks(from.bit(), blockers),
        rook_attacks(from.bit(), blockers),
        0,
        k,
    );
    lemma_has_bit_algebra(0, 0, 0, s);
    lemma_has_bit_algebra(0, 0, 0, k);
    lemma_pawn_targets(color, king, s);
    lemma_pawn_targets(opponent, from, k);
    let pawn_checks = has_bit(pawns, s) && has_bit(targets, s);
    let pawn_attacks = has_bit(pawns, s) && has_bit(pawn_targets(opponent, from), k);
    assert(pawn_checks <==> pawn_attacks);
    if has_bit(board.checkers_of(color), s) {
        if has_bit(queens, s) && (has_bit(diagonal, s) || has_bit(straight, s)) {
            assert(has_bit(piece_attacks(Piece::Queen, opponent, from, blockers), k));
        } else if has_bit(bishops, s) && has_bit(diagonal, s) {
            assert(has_bit(piece_attacks(Piece::Bishop, opponent, from, blockers), k));
        } else if has_bit(rooks, s) && has_bit(straight, s) {
            assert(has_bit(piece_attacks(Piece::Rook, opponent, from, blockers), k));
        } else if has_bit(knights, s) && has_bit(jumps, s) {
            assert(has_bit(piece_attacks(Piece::Knight, opponent, from, blockers), k));
        } else {
            assert(has_bit(piece_attacks(Piece::Pawn, opponent, from, blockers), k));
        }
    }
}

} // verus!
