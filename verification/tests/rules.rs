use seer::board::{
    Bitboard, CastleRights, ChessBoard, ChessBoardBuilder, Color, IntoSquareError, Piece, Square,
    ValidationError,
};

/// A board with the two kings on their squares and nothing else.
fn bare_kings() -> ChessBoardBuilder {
    let mut builder = ChessBoardBuilder::new();
    builder[Square::E1] = Some((Piece::King, Color::White));
    builder[Square::E8] = Some((Piece::King, Color::Black));
    builder
}

#[test]
fn starting_position_is_valid() {
    let position = ChessBoard::default();
    assert_eq!(position.validate(), Ok(()));
    assert!(position.is_valid());
    assert_eq!(position.current_player(), Color::White);
    assert_eq!(position.total_plies(), 0);
    assert_eq!(position.half_move_clock(), 0);
    assert_eq!(position.en_passant(), None);
    assert_eq!(position.castle_rights(Color::White), CastleRights::BothSides);
    assert_eq!(position.castle_rights(Color::Black), CastleRights::BothSides);
    assert_eq!(position.combined_occupancy(), Bitboard(0xc3c3_c3c3_c3c3_c3c3));
    assert_eq!(position.occupancy(Piece::King, Color::White), Square::E1.into_bitboard());
    assert_eq!(position.occupancy(Piece::Pawn, Color::Black).count(), 8);
    assert_eq!(position.checkers(), Bitboard(0));
}

#[test]
fn builder_counts_plies_from_turns() {
    let mut builder = bare_kings();
    builder.with_turn_count(3).with_current_player(Color::Black);
    assert_eq!(ChessBoard::try_from(builder).unwrap().total_plies(), 5);
    let mut builder = bare_kings();
    builder.with_turn_count(40).with_half_move_clock(78);
    let position = ChessBoard::try_from(builder).unwrap();
    assert_eq!(position.total_plies(), 78);
    assert_eq!(position.half_move_clock(), 78);
    assert_eq!(ChessBoardBuilder::default(), ChessBoardBuilder::new());
    assert_eq!(bare_kings()[Square::E1], Some((Piece::King, Color::White)));
    assert_eq!(bare_kings()[Square::E2], None);
}

#[test]
fn missing_king_is_reported() {
    let mut builder = ChessBoardBuilder::new();
    builder[Square::E1] = Some((Piece::King, Color::White));
    assert_eq!(ChessBoard::try_from(builder), Err(ValidationError::MissingKing));
    let mut builder = ChessBoardBuilder::new();
    builder[Square::E8] = Some((Piece::King, Color::Black));
    assert_eq!(ChessBoard::try_from(builder), Err(ValidationError::MissingKing));
}

#[test]
fn too_many_of_one_piece_type_is_reported() {
    let mut builder = bare_kings();
    for square in [
        Square::A2,
        Square::B2,
        Square::C2,
        Square::D2,
        Square::E2,
        Square::F2,
        Square::G2,
        Square::H2,
        Square::A3,
    ] {
        builder[square] = Some((Piece::Pawn, Color::White));
    }
    assert_eq!(ChessBoard::try_from(builder), Err(ValidationError::TooManyPieces));
    let mut builder = bare_kings();
    for square in Bitboard(0x0000_0000_0007_0707).into_iter().collect() {
        builder[square] = Some((Piece::Queen, Color::Black));
    }
    let position = ChessBoard::try_from(builder.clone());
    assert!(position.is_ok());
    builder[Square::D2] = Some((Piece::Queen, Color::Black));
    assert_eq!(ChessBoard::try_from(builder), Err(ValidationError::TooManyPieces));
}

#[test]
fn rules_are_tested_in_order() {
    // Overlapping pieces come before everything else.
    let mut position = ChessBoard::try_from(bare_kings()).unwrap();
    position.half_move_clock = 10;
    position.total_plies = 1;
    *position.piece_occupancy_mut(Piece::Queen) |= Square::E1;
    assert_eq!(position.validate(), Err(ValidationError::OverlappingPieces));
    // The ply counter comes before the half-move clock, and both after the pieces.
    let mut position = ChessBoard::try_from(bare_kings()).unwrap();
    position.half_move_clock = 10;
    position.total_plies = 1;
    assert_eq!(position.validate(), Err(ValidationError::IncoherentPlieCount));
    position.total_plies = 2;
    assert_eq!(position.validate(), Err(ValidationError::HalfMoveClockTooHigh));
    position.total_plies = 10;
    assert_eq!(position.validate(), Ok(()));
    // A king in check comes before the counters.
    *position.piece_occupancy_mut(Piece::Rook) |= Square::E4;
    *position.color_occupancy_mut(Color::White) |= Square::E4;
    position.combined_occupancy |= Square::E4;
    position.total_plies = 11;
    assert_eq!(position.validate(), Err(ValidationError::OpponentInCheck));
    // Castle rights come before the kings' squares.
    *position.castle_rights_mut(Color::Black) = CastleRights::KingSide;
    assert_eq!(position.validate(), Err(ValidationError::InvalidCastlingRights));
}

#[test]
fn castle_rights_need_their_rook() {
    let mut builder = bare_kings();
    builder[Square::H1] = Some((Piece::Rook, Color::White));
    builder.with_castle_rights(CastleRights::KingSide, Color::White);
    assert!(ChessBoard::try_from(builder.clone()).is_ok());
    builder.with_castle_rights(CastleRights::QueenSide, Color::White);
    assert_eq!(ChessBoard::try_from(builder.clone()), Err(ValidationError::InvalidCastlingRights));
    builder.with_castle_rights(CastleRights::KingSide, Color::Black);
    builder.with_castle_rights(CastleRights::KingSide, Color::White);
    assert_eq!(ChessBoard::try_from(builder), Err(ValidationError::InvalidCastlingRights));
}

#[test]
fn board_names_its_single_square() {
    assert_eq!(Square::try_from(Bitboard(1 << 27)), Ok(Square::D4));
    assert_eq!(Square::try_from(Bitboard(0)), Err(IntoSquareError::EmptyBoard));
    assert_eq!(Square::try_from(Bitboard(0b11)), Err(IntoSquareError::TooManySquares));
    assert_eq!(IntoSquareError::EmptyBoard.message(), "The board is empty");
    assert_eq!(ValidationError::MissingKing.message(), "Missing king");
}

/// A white king on its first rank with a black pawn on the square that attacks it.
fn pawn_before_the_king(side: Color) -> ChessBoardBuilder {
    let mut builder = ChessBoardBuilder::new();
    builder[Square::E1] = Some((Piece::King, Color::White));
    builder[Square::D2] = Some((Piece::Pawn, Color::Black));
    builder[Square::E8] = Some((Piece::King, Color::Black));
    builder.with_current_player(side);
    builder
}

#[test]
fn pawn_checks_a_king_on_its_first_rank() {
    let position = ChessBoard::try_from(pawn_before_the_king(Color::White)).unwrap();
    assert_eq!(position.checkers(), Square::D2.into_bitboard());
    assert_eq!(position.compute_checkers(Color::White), Square::D2.into_bitboard());
    assert_eq!(position.compute_checkers(Color::Black), Bitboard(0));
}

#[test]
fn pawn_check_of_the_side_not_to_move_is_refused() {
    assert_eq!(
        ChessBoard::try_from(pawn_before_the_king(Color::Black)),
        Err(ValidationError::OpponentInCheck)
    );
    let mut builder = ChessBoardBuilder::new();
    builder[Square::E1] = Some((Piece::King, Color::White));
    builder[Square::F7] = Some((Piece::Pawn, Color::White));
    builder[Square::E8] = Some((Piece::King, Color::Black));
    assert_eq!(ChessBoard::try_from(builder), Err(ValidationError::OpponentInCheck));
}
