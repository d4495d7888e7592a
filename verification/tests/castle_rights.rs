use seer::board::{Bitboard, CastleRights, Color, Square};

#[test]
fn castle_rights_from_index() {
    assert_eq!(CastleRights::from_index(0), CastleRights::NoSide);
    assert_eq!(CastleRights::from_index(1), CastleRights::KingSide);
    assert_eq!(CastleRights::from_index(2), CastleRights::QueenSide);
    assert_eq!(CastleRights::from_index(3), CastleRights::BothSides);
}

#[test]
fn castle_rights_index() {
    assert_eq!(CastleRights::NoSide.index(), 0);
    assert_eq!(CastleRights::KingSide.index(), 1);
    assert_eq!(CastleRights::QueenSide.index(), 2);
    assert_eq!(CastleRights::BothSides.index(), 3);
}

#[test]
fn has_kingside() {
    assert!(!CastleRights::NoSide.has_king_side());
    assert!(!CastleRights::QueenSide.has_king_side());
    assert!(CastleRights::KingSide.has_king_side());
    assert!(CastleRights::BothSides.has_king_side());
}

#[test]
fn has_queenside() {
    assert!(!CastleRights::NoSide.has_queen_side());
    assert!(!CastleRights::KingSide.has_queen_side());
    assert!(CastleRights::QueenSide.has_queen_side());
    assert!(CastleRights::BothSides.has_queen_side());
}

#[test]
fn without_king_side() {
    assert_eq!(
        CastleRights::NoSide.without_king_side(),
        CastleRights::NoSide
    );
    assert_eq!(
        CastleRights::KingSide.without_king_side(),
        CastleRights::NoSide
    );
    assert_eq!(
        CastleRights::QueenSide.without_king_side(),
        CastleRights::QueenSide
    );
    assert_eq!(
        CastleRights::BothSides.without_king_side(),
        CastleRights::QueenSide
    );
}

#[test]
fn without_queen_side() {
    assert_eq!(
        CastleRights::NoSide.without_queen_side(),
        CastleRights::NoSide
    );
    assert_eq!(
        CastleRights::QueenSide.without_queen_side(),
        CastleRights::NoSide
    );
    assert_eq!(
        CastleRights::KingSide.without_queen_side(),
        CastleRights::KingSide
    );
    assert_eq!(
        CastleRights::BothSides.without_queen_side(),
        CastleRights::KingSide
    );
}

#[test]
fn unmoved_rooks() {
    assert_eq!(
        CastleRights::NoSide.unmoved_rooks(Color::White),
        Bitboard::empty()
    );
    assert_eq!(
        CastleRights::NoSide.unmoved_rooks(Color::Black),
        Bitboard::empty()
    );
    assert_eq!(
        CastleRights::KingSide.unmoved_rooks(Color::White),
        Square::H1.into_bitboard()
    );
    assert_eq!(
        CastleRights::KingSide.unmoved_rooks(Color::Black),
        Square::H8.into_bitboard()
    );
    assert_eq!(
        CastleRights::QueenSide.unmoved_rooks(Color::White),
        Square::A1.into_bitboard()
    );
    assert_eq!(
        CastleRights::QueenSide.unmoved_rooks(Color::Black),
        Square::A8.into_bitboard()
    );
    assert_eq!(
        CastleRights::BothSides.unmoved_rooks(Color::White),
        Square::A1 | Square::H1
    );
    assert_eq!(
        CastleRights::BothSides.unmoved_rooks(Color::Black),
        Square::A8 | Square::H8
    );
}
