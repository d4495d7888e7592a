use seer::board::{Bitboard, Direction, File, Rank, Square};
use seer::movegen::naive::bishop_moves;

#[test]
fn bishop_moves_lower_left_square() {
    assert_eq!(
        bishop_moves(Square::A1, Bitboard::empty()),
        Bitboard::diagonal() - Square::A1
    );
    assert_eq!(
        bishop_moves(Square::A1, Bitboard::all()),
        Square::B2.into_bitboard()
    );
    assert_eq!(
        bishop_moves(Square::A1, Square::D4.into_bitboard()),
        Square::B2 | Square::C3 | Square::D4
    );
    assert_eq!(
        bishop_moves(Square::A1, File::D.into_bitboard()),
        Square::B2 | Square::C3 | Square::D4
    );
}

#[test]
fn bishop_moves_middle() {
    let cross = Bitboard::diagonal() | Direction::South.move_board(Bitboard::anti_diagonal());
    assert_eq!(
        bishop_moves(Square::D4, Bitboard::empty()),
        cross - Square::D4
    );
    assert_eq!(
        bishop_moves(Square::D4, Bitboard::all()),
        Square::C3 | Square::C5 | Square::E3 | Square::E5
    );
    assert_eq!(
        bishop_moves(Square::D4, Rank::Fifth.into_bitboard()),
        Square::A1
            | Square::B2
            | Square::C3
            | Square::C5
            | Square::E3
            | Square::E5
            | Square::F2
            | Square::G1
    );
    assert_eq!(
        bishop_moves(Square::D4, File::E.into_bitboard()),
        Square::A1
            | Square::A7
            | Square::B2
            | Square::B6
            | Square::C3
            | Square::C5
            | Square::E3
            | Square::E5
    );
}
