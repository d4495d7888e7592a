use seer::board::{ChessBoard, ChessBoardBuilder, Color, Piece};

fn from_board(board: &ChessBoard) -> ChessBoardBuilder {
    let mut builder = ChessBoardBuilder::new();

    for piece in Piece::iter() {
        for color in Color::iter() {
            for square in board.occupancy(piece, color).into_iter().collect() {
                builder[square] = Some((piece, color));
            }
        }
    }

    for color in Color::iter() {
        builder.with_castle_rights(board.castle_rights(color), color);
    }

    if let Some(square) = board.en_passant() {
        builder.with_en_passant(square);
    } else {
        builder.without_en_passant();
    }

    builder
        .with_half_move_clock(board.half_move_clock())
        .with_turn_count(board.total_plies() / 2 + 1)
        .with_current_player(board.current_player());

    builder
}

#[test]
fn default_board() {
    let board = ChessBoard::default();
    let builder = from_board(&board);
    assert_eq!(board, ChessBoard::try_from(builder).unwrap())
}
