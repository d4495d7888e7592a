use seer::board::Piece;

#[test]
fn piece_from_index() {
    assert_eq!(Piece::from_index(0), Piece::King);
    assert_eq!(Piece::from_index(1), Piece::Queen);
    assert_eq!(Piece::from_index(5), Piece::Pawn);
}

#[test]
fn piece_index() {
    assert_eq!(Piece::King.index(), 0);
    assert_eq!(Piece::Queen.index(), 1);
    assert_eq!(Piece::Pawn.index(), 5);
}
