use seer::board::{Bitboard, CastleRights, ChessBoard, Color, Move, Piece, Square};
use seer::fen::FromFen;

#[test]
fn chess_board_valid() {
    let default_position = ChessBoard::default();
    assert!(default_position.is_valid());
}

#[test]
fn chess_board_invalid_overlapping_pieces() {
    let position = ChessBoard {
        piece_occupancy: [
            // King
            Square::E1 | Square::E8,
            // Queen
            Square::E1 | Square::E8,
            // Rook
            Bitboard::empty(),
            // Bishop
            Bitboard::empty(),
            // Knight
            Bitboard::empty(),
            // Pawn
            Bitboard::empty(),
        ],
        color_occupancy: [Square::E1.into_bitboard(), Square::E8.into_bitboard()],
        combined_occupancy: Square::E1 | Square::E8,
        castle_rights: [CastleRights::NoSide; 2],
        en_passant: None,
        half_move_clock: 0,
        total_plies: 0,
        side: Color::White,
    };
    assert!(!position.is_valid());
}

#[test]
fn chess_board_invalid_overlapping_colors() {
    let position = ChessBoard {
        piece_occupancy: [
            // King
            Square::E1 | Square::E8,
            // Queen
            Bitboard::empty(),
            // Rook
            Bitboard::empty(),
            // Bishop
            Bitboard::empty(),
            // Knight
            Bitboard::empty(),
            // Pawn
            Bitboard::empty(),
        ],
        color_occupancy: [Square::E1 | Square::E8, Square::E1 | Square::E8],
        combined_occupancy: Square::E1 | Square::E8,
        castle_rights: [CastleRights::NoSide; 2],
        en_passant: None,
        half_move_clock: 0,
        total_plies: 0,
        side: Color::White,
    };
    assert!(!position.is_valid());
}

#[test]
fn chess_board_invalid_combined_does_not_equal_pieces() {
    let position = ChessBoard {
        piece_occupancy: [
            // King
            Square::E1 | Square::E8,
            // Queen
            Bitboard::empty(),
            // Rook
            Bitboard::empty(),
            // Bishop
            Bitboard::empty(),
            // Knight
            Bitboard::empty(),
            // Pawn
            Bitboard::empty(),
        ],
        color_occupancy: [Square::E1.into_bitboard(), Square::E8.into_bitboard()],
        combined_occupancy: Square::E1.into_bitboard(),
        castle_rights: [CastleRights::NoSide; 2],
        en_passant: None,
        half_move_clock: 0,
        total_plies: 0,
        side: Color::White,
    };
    assert!(!position.is_valid());
}

#[test]
fn chess_board_invalid_combined_does_not_equal_colors() {
    let position = ChessBoard {
        piece_occupancy: [
            // King
            Square::E1 | Square::E8,
            // Queen
            Bitboard::empty(),
            // Rook
            Bitboard::empty(),
            // Bishop
            Bitboard::empty(),
            // Knight
            Bitboard::empty(),
            // Pawn
            Bitboard::empty(),
        ],
        color_occupancy: [Square::E1 | Square::H1, Square::E8 | Square::H8],
        combined_occupancy: Square::E1 | Square::E8,
        castle_rights: [CastleRights::NoSide; 2],
        en_passant: None,
        half_move_clock: 0,
        total_plies: 0,
        side: Color::White,
    };
    assert!(!position.is_valid());
}

#[test]
fn chess_board_invalid_multiple_kings() {
    let position = ChessBoard {
        piece_occupancy: [
            // King
            Square::E1 | Square::E2 | Square::E7 | Square::E8,
            // Queen
            Bitboard::empty(),
            // Rook
            Bitboard::empty(),
            // Bishop
            Bitboard::empty(),
            // Knight
            Bitboard::empty(),
            // Pawn
            Bitboard::empty(),
        ],
        color_occupancy: [Square::E1 | Square::E2, Square::E7 | Square::E8],
        combined_occupancy: Square::E1 | Square::E2 | Square::E7 | Square::E8,
        castle_rights: [CastleRights::NoSide; 2],
        en_passant: None,
        half_move_clock: 0,
        total_plies: 0,
        side: Color::White,
    };
    assert!(!position.is_valid());
}

#[test]
fn chess_board_invalid_castling_rights_no_rooks() {
    let position = ChessBoard {
        piece_occupancy: [
            // King
            Square::E1 | Square::E8,
            // Queen
            Bitboard::empty(),
            // Rook
            Bitboard::empty(),
            // Bishop
            Bitboard::empty(),
            // Knight
            Bitboard::empty(),
            // Pawn
            Bitboard::empty(),
        ],
        color_occupancy: [Square::E1.into_bitboard(), Square::E8.into_bitboard()],
        combined_occupancy: Square::E1 | Square::E8,
        castle_rights: [CastleRights::BothSides; 2],
        en_passant: None,
        half_move_clock: 0,
        total_plies: 0,
        side: Color::White,
    };
    assert!(!position.is_valid());
}

#[test]
fn chess_board_invalid_castling_rights_moved_king() {
    let position = ChessBoard {
        piece_occupancy: [
            // King
            Square::E2 | Square::E7,
            // Queen
            Bitboard::empty(),
            // Rook
            Square::A1 | Square::A8 | Square::H1 | Square::H8,
            // Bishop
            Bitboard::empty(),
            // Knight
            Bitboard::empty(),
            // Pawn
            Bitboard::empty(),
        ],
        color_occupancy: [
            Square::A1 | Square::E2 | Square::H1,
            Square::A8 | Square::E7 | Square::H8,
        ],
        combined_occupancy: Square::A1
            | Square::A8
            | Square::E1
            | Square::E8
            | Square::H1
            | Square::H8,
        castle_rights: [CastleRights::BothSides; 2],
        en_passant: None,
        half_move_clock: 0,
        total_plies: 0,
        side: Color::White,
    };
    assert!(!position.is_valid());
}

#[test]
fn chess_board_invalid_kings_next_to_each_other() {
    let position = ChessBoard {
        piece_occupancy: [
            // King
            Square::E2 | Square::E3,
            // Queen
            Bitboard::empty(),
            // Rook
            Bitboard::empty(),
            // Bishop
            Bitboard::empty(),
            // Knight
            Bitboard::empty(),
            // Pawn
            Bitboard::empty(),
        ],
        color_occupancy: [Square::E2.into_bitboard(), Square::E3.into_bitboard()],
        combined_occupancy: Square::E2 | Square::E3,
        castle_rights: [CastleRights::NoSide; 2],
        en_passant: None,
        half_move_clock: 0,
        total_plies: 0,
        side: Color::White,
    };
    assert!(!position.is_valid());
}

#[test]
fn chess_board_invalid_opponent_in_check() {
    let position = ChessBoard {
        piece_occupancy: [
            // King
            Square::E1 | Square::E8,
            // Queen
            Square::E7.into_bitboard(),
            // Rook
            Bitboard::empty(),
            // Bishop
            Bitboard::empty(),
            // Knight
            Bitboard::empty(),
            // Pawn
            Bitboard::empty(),
        ],
        color_occupancy: [Square::E1 | Square::E7, Square::E8.into_bitboard()],
        combined_occupancy: Square::E1 | Square::E7 | Square::E8,
        castle_rights: [CastleRights::NoSide; 2],
        en_passant: None,
        half_move_clock: 0,
        total_plies: 0,
        side: Color::White,
    };
    assert!(!position.is_valid());
}

#[test]
fn chess_board_checkers() {
    let position = ChessBoard {
        piece_occupancy: [
            // King
            Square::E2 | Square::E8,
            // Queen
            Square::E7 | Square::H2,
            // Rook
            Square::A2 | Square::E1,
            // Bishop
            Square::D3 | Square::F3,
            // Knight
            Square::C1 | Square::G1,
            // Pawn
            Bitboard::empty(),
        ],
        color_occupancy: [
            Square::C1 | Square::D3 | Square::E1 | Square::E2 | Square::H2,
            Square::A2 | Square::E7 | Square::E8 | Square::F3 | Square::G1,
        ],
        combined_occupancy: Square::A2
            | Square::C1
            | Square::D3
            | Square::E1
            | Square::E2
            | Square::E7
            | Square::E8
            | Square::F3
            | Square::G1
            | Square::H2,
        castle_rights: [CastleRights::NoSide; 2],
        en_passant: None,
        half_move_clock: 0,
        total_plies: 0,
        side: Color::White,
    };
    assert_eq!(
        position.checkers(),
        Square::A2 | Square::E7 | Square::F3 | Square::G1
    );
}

#[test]
fn fen_default_position() {
    let default_position = ChessBoard::default();
    assert_eq!(
        ChessBoard::from_fen("rnbqkbnr/pppppppp/8/8/8/8/PPPPPPPP/RNBQKBNR w KQkq - 0 1")
            .unwrap(),
        default_position
    );
}

#[test]
fn fen_en_passant() {
    // Start from default position
    let mut position = ChessBoard::default();
    // Modify it to account for e4 move
    position.xor(Color::White, Piece::Pawn, Square::E2);
    position.xor(Color::White, Piece::Pawn, Square::E4);
    position.en_passant = Some(Square::E3);
    position.total_plies = 1;
    position.side = Color::Black;
    assert_eq!(
        ChessBoard::from_fen("rnbqkbnr/pppppppp/8/8/4P3/8/PPPP1PPP/RNBQKBNR b KQkq e3 0 1")
            .unwrap(),
        position
    );
    // And now c5
    position.xor(Color::Black, Piece::Pawn, Square::C5);
    position.xor(Color::Black, Piece::Pawn, Square::C7);
    position.en_passant = Some(Square::C6);
    position.total_plies = 2;
    position.side = Color::White;
    assert_eq!(
        ChessBoard::from_fen("rnbqkbnr/pp1ppppp/8/2p5/4P3/8/PPPP1PPP/RNBQKBNR w KQkq c6 0 2")
            .unwrap(),
        position
    );
    // Finally, Nf3
    position.xor(Color::White, Piece::Knight, Square::G1);
    position.xor(Color::White, Piece::Knight, Square::F3);
    position.en_passant = None;
    position.total_plies = 3;
    position.half_move_clock = 1;
    position.side = Color::Black;
    assert_eq!(
        ChessBoard::from_fen("rnbqkbnr/pp1ppppp/8/2p5/4P3/5N2/PPPP1PPP/RNBQKB1R b KQkq - 1 2 ")
            .unwrap(),
        position
    );
}

#[test]
fn do_move() {
    // Start from default position
    let mut position = ChessBoard::default();
    // Modify it to account for e4 move
    position.play_move_inplace(
        Move::new(Square::E2, Square::E4, None),
    );
    assert_eq!(
        position,
        ChessBoard::from_fen("rnbqkbnr/pppppppp/8/8/4P3/8/PPPP1PPP/RNBQKBNR b KQkq e3 0 1")
            .unwrap()
    );
    // And now c5
    position.play_move_inplace(
        Move::new(Square::C7, Square::C5, None),
    );
    assert_eq!(
        position,
        ChessBoard::from_fen("rnbqkbnr/pp1ppppp/8/2p5/4P3/8/PPPP1PPP/RNBQKBNR w KQkq c6 0 2")
            .unwrap()
    );
    // Finally, Nf3
    position.play_move_inplace(
        Move::new(Square::G1, Square::F3, None),
    );
    assert_eq!(
        position,
        ChessBoard::from_fen("rnbqkbnr/pp1ppppp/8/2p5/4P3/5N2/PPPP1PPP/RNBQKB1R b KQkq - 1 2 ")
            .unwrap()
    );
}

#[test]
fn do_move_and_undo() {
    // Start from default position
    let mut position = ChessBoard::default();
    // Modify it to account for e4 move
    let move_1 = Move::new(Square::E2, Square::E4, None);
    let state_1 = position.play_move_inplace(move_1);
    // And now c5
    let move_2 = Move::new(Square::C7, Square::C5, None);
    let state_2 = position.play_move_inplace(move_2);
    // Finally, Nf3
    let move_3 = Move::new(Square::G1, Square::F3, None);
    let state_3 = position.play_move_inplace(move_3);
    // Now revert each move one-by-one
    position.unplay_move(move_3, state_3);
    assert_eq!(
        position,
        ChessBoard::from_fen("rnbqkbnr/pp1ppppp/8/2p5/4P3/8/PPPP1PPP/RNBQKBNR w KQkq c6 0 2")
            .unwrap()
    );
    position.unplay_move(move_2, state_2);
    assert_eq!(
        position,
        ChessBoard::from_fen("rnbqkbnr/pppppppp/8/8/4P3/8/PPPP1PPP/RNBQKBNR b KQkq e3 0 1")
            .unwrap()
    );
    position.unplay_move(move_1, state_1);
    assert_eq!(
        position,
        ChessBoard::from_fen("rnbqkbnr/pppppppp/8/8/8/8/PPPPPPPP/RNBQKBNR w KQkq - 0 1")
            .unwrap()
    );
}
