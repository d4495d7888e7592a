use seer::board::{Bitboard, Color, Square};
use seer::movegen::naive::{en_passant_origins, pawn_captures, pawn_moves};
use seer::movegen::pawn_attacks;

#[test]
fn moves() {
    assert_eq!(
        pawn_moves(Color::White, Square::A2, Bitboard::empty()),
        Square::A3 | Square::A4
    );
    assert_eq!(
        pawn_moves(Color::Black, Square::A7, Bitboard::empty()),
        Square::A5 | Square::A6
    );
    assert_eq!(
        pawn_moves(Color::Black, Square::A2, Bitboard::empty()),
        Square::A1.into_bitboard()
    );
    assert_eq!(
        pawn_moves(Color::White, Square::A7, Bitboard::empty()),
        Square::A8.into_bitboard()
    );
}

#[test]
fn captures() {
    assert_eq!(
        pawn_captures(Color::White, Square::A2),
        Square::B3.into_bitboard()
    );
    assert_eq!(
        pawn_captures(Color::White, Square::B2),
        Square::A3 | Square::C3
    );
    assert_eq!(
        pawn_captures(Color::White, Square::H2),
        Square::G3.into_bitboard()
    );
    assert_eq!(
        pawn_captures(Color::Black, Square::A2),
        Square::B1.into_bitboard()
    );
    assert_eq!(
        pawn_captures(Color::Black, Square::B2),
        Square::A1 | Square::C1
    );
    assert_eq!(
        pawn_captures(Color::Black, Square::H2),
        Square::G1.into_bitboard()
    );
    assert_eq!(
        pawn_captures(Color::White, Square::A7),
        Square::B8.into_bitboard()
    );
    assert_eq!(
        pawn_captures(Color::White, Square::B7),
        Square::A8 | Square::C8
    );
    assert_eq!(
        pawn_captures(Color::Black, Square::H7),
        Square::G6.into_bitboard()
    );
    assert_eq!(
        pawn_captures(Color::Black, Square::A7),
        Square::B6.into_bitboard()
    );
    assert_eq!(
        pawn_captures(Color::Black, Square::B7),
        Square::A6 | Square::C6
    );
    assert_eq!(
        pawn_captures(Color::Black, Square::H7),
        Square::G6.into_bitboard()
    );
}

#[test]
fn pawn_en_passant() {
    assert_eq!(en_passant_origins(Square::A4), Square::B4.into_bitboard());
    assert_eq!(en_passant_origins(Square::A5), Square::B5.into_bitboard());
    assert_eq!(en_passant_origins(Square::B4), Square::A4 | Square::C4);
    assert_eq!(en_passant_origins(Square::B5), Square::A5 | Square::C5);
    assert_eq!(en_passant_origins(Square::H4), Square::G4.into_bitboard());
    assert_eq!(en_passant_origins(Square::H5), Square::G5.into_bitboard());
}

#[test]
fn captures_from_the_first_and_last_rank() {
    assert_eq!(pawn_attacks(Color::White, Square::E1), Square::D2 | Square::F2);
    assert_eq!(pawn_captures(Color::White, Square::E1), Square::D2 | Square::F2);
    assert_eq!(pawn_captures(Color::White, Square::A1), Square::B2.into_bitboard());
    assert_eq!(pawn_captures(Color::White, Square::H1), Square::G2.into_bitboard());
    assert_eq!(pawn_captures(Color::Black, Square::E8), Square::D7 | Square::F7);
    assert_eq!(pawn_attacks(Color::Black, Square::A8), Square::B7.into_bitboard());
    assert_eq!(pawn_captures(Color::White, Square::E8), Bitboard::empty());
    assert_eq!(pawn_captures(Color::Black, Square::E1), Bitboard::empty());
    assert_eq!(pawn_moves(Color::White, Square::E1, Bitboard::empty()), Bitboard::empty());
    assert_eq!(pawn_moves(Color::Black, Square::E8, Bitboard::empty()), Bitboard::empty());
}

#[test]
fn captures_go_both_ways() {
    for color in Color::iter() {
        for from in Square::iter() {
            for to in Square::iter() {
                assert_eq!(
                    (pawn_captures(color, from) & to).is_empty(),
                    (pawn_captures(!color, to) & from).is_empty()
                );
            }
        }
    }
}
