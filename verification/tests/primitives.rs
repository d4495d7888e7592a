use seer::board::{
    Bitboard, BitboardIterator, BitboardPowerSetIterator, CastleRights, ChessBoard, Color,
    Direction, File, Move, Piece, Rank, Square, ANTI_DIAGONAL_MASK, DIAGONAL_MASK, FILE_A, FILE_H,
    FILE_MASKS, RANK_1, RANK_2, RANK_7, RANK_8, RANK_MASKS,
};
use seer::movegen::wizardry::MagicMoves;
use seer::movegen::{bishop_magics, naive};

#[test]
fn indices_go_round() {
    for (index, file) in File::iter().into_iter().enumerate() {
        assert_eq!(file.index(), index);
        assert_eq!(File::from_index(index), file);
        assert_eq!(File::try_from_index(index), Some(file));
        assert_eq!(file.into_bitboard(), Bitboard(0xff << (8 * index)));
    }
    assert_eq!(File::try_from_index(8), None);
    for (index, rank) in Rank::iter().into_iter().enumerate() {
        assert_eq!(rank.index(), index);
        assert_eq!(Rank::from_index(index), rank);
        assert_eq!(rank.into_bitboard(), Bitboard(0x0101_0101_0101_0101 << index));
    }
    for (index, piece) in Piece::iter().into_iter().enumerate() {
        assert_eq!(piece.index(), index);
        assert_eq!(Piece::from_index(index), piece);
        assert_eq!(Piece::try_from_index(index), Some(piece));
    }
    assert_eq!(Piece::try_from_index(6), None);
    for (index, color) in Color::iter().into_iter().enumerate() {
        assert_eq!(color.index(), index);
        assert_eq!(Color::from_index(index), color);
    }
    for (index, rights) in CastleRights::iter().into_iter().enumerate() {
        assert_eq!(rights.index(), index);
        assert_eq!(CastleRights::from_index(index), rights);
    }
    let squares = Square::iter();
    assert_eq!(squares.len(), 64);
    for (index, square) in squares.into_iter().enumerate() {
        assert_eq!(square.index(), index);
        assert_eq!(Square::from_index(index), square);
        assert_eq!(square.file_index(), index / 8);
        assert_eq!(square.rank_index(), index % 8);
        assert_eq!(Square::new(square.file(), square.rank()), square);
        assert_eq!(square.into_bitboard(), Bitboard(1 << index));
    }
}

#[test]
fn masks_are_named() {
    assert_eq!(RANK_1, RANK_MASKS[0]);
    assert_eq!(RANK_2, RANK_MASKS[1]);
    assert_eq!(RANK_7, RANK_MASKS[6]);
    assert_eq!(RANK_8, RANK_MASKS[7]);
    assert_eq!(FILE_A, FILE_MASKS[0]);
    assert_eq!(FILE_H, FILE_MASKS[7]);
    assert_eq!(Bitboard::diagonal(), Bitboard(DIAGONAL_MASK));
    assert_eq!(Bitboard::anti_diagonal(), Bitboard(ANTI_DIAGONAL_MASK));
    assert_eq!(Bitboard::diagonal(), Square::A1 | Square::B2 | Square::C3 | Square::D4
        | Square::E5 | Square::F6 | Square::G7 | Square::H8);
    assert_eq!(Bitboard::anti_diagonal() & Bitboard(RANK_8), Square::A8.into_bitboard());
    assert_eq!(Bitboard::empty(), Bitboard::default());
    assert_eq!(!Bitboard::all(), Bitboard::empty());
}

#[test]
fn colors_have_their_ranks() {
    assert_eq!(Color::White.first_rank(), Rank::First);
    assert_eq!(Color::White.second_rank(), Rank::Second);
    assert_eq!(Color::White.third_rank(), Rank::Third);
    assert_eq!(Color::White.fourth_rank(), Rank::Fourth);
    assert_eq!(Color::White.seventh_rank(), Rank::Seventh);
    assert_eq!(Color::Black.first_rank(), Rank::Eighth);
    assert_eq!(Color::Black.second_rank(), Rank::Seventh);
    assert_eq!(Color::Black.third_rank(), Rank::Sixth);
    assert_eq!(Color::Black.fourth_rank(), Rank::Fifth);
    assert_eq!(Color::Black.seventh_rank(), Rank::Second);
    assert_eq!(Color::White.forward_direction(), Direction::North);
    assert_eq!(Color::White.backward_direction(), Direction::South);
    assert_eq!(Color::Black.forward_direction(), Direction::South);
    assert_eq!(Color::Black.backward_direction(), Direction::North);
}

#[test]
fn directions_are_listed() {
    assert_eq!(Direction::iter_rook(), Direction::ROOK_DIRECTIONS.to_vec());
    assert_eq!(Direction::iter_bishop(), Direction::BISHOP_DIRECTIONS.to_vec());
    assert_eq!(Direction::iter_knight(), Direction::KNIGHT_DIRECTIONS.to_vec());
    let mut royalty = Direction::ROOK_DIRECTIONS.to_vec();
    royalty.extend(Direction::BISHOP_DIRECTIONS);
    assert_eq!(Direction::iter_royalty(), royalty);
    assert_eq!(Direction::iter_rook()[0], Direction::North);
    assert_eq!(Direction::iter_knight().len(), 8);
    let mut king = Bitboard(0);
    for direction in Direction::iter_royalty() {
        king |= direction.move_board(Square::D4.into_bitboard());
    }
    assert_eq!(king, naive::king_moves(Square::D4));
    let mut knight = Bitboard(0);
    for direction in Direction::iter_knight() {
        knight |= direction.move_board(Square::D4.into_bitboard());
    }
    assert_eq!(knight, naive::knight_moves(Square::D4));
    let mut rook = Bitboard(0);
    for direction in Direction::iter_rook() {
        rook |= direction.slide_square(Square::D4);
    }
    assert_eq!(rook, naive::rook_moves(Square::D4, Bitboard(0)));
    let mut bishop = Bitboard(0);
    for direction in Direction::iter_bishop() {
        bishop |= direction.slide_square(Square::D4);
    }
    assert_eq!(bishop, naive::bishop_moves(Square::D4, Bitboard(0)));
}

#[test]
fn castle_rights_are_sets_of_sides() {
    assert_eq!(CastleRights::NoSide.with_king_side(), CastleRights::KingSide);
    assert_eq!(CastleRights::QueenSide.with_king_side(), CastleRights::BothSides);
    assert_eq!(CastleRights::KingSide.with_king_side(), CastleRights::KingSide);
    assert_eq!(CastleRights::NoSide.with_queen_side(), CastleRights::QueenSide);
    assert_eq!(CastleRights::KingSide.with_queen_side(), CastleRights::BothSides);
    assert_eq!(CastleRights::BothSides.with_queen_side(), CastleRights::BothSides);
    for rights in CastleRights::iter() {
        for removed in CastleRights::iter() {
            let left = rights.remove(removed);
            assert_eq!(left.index(), rights.index() & !removed.index());
            assert_eq!(left.has_king_side(), rights.has_king_side() && !removed.has_king_side());
            assert_eq!(
                left.has_queen_side(),
                rights.has_queen_side() && !removed.has_queen_side()
            );
        }
    }
}

#[test]
fn assignments_follow_the_operators() {
    let start = Bitboard(0x0000_0000_00ff_ff00);
    let other = Bitboard(0x0000_0000_0f0f_0f0f);
    let mut board = start;
    board |= other;
    assert_eq!(board, start | other);
    let mut board = start;
    board &= other;
    assert_eq!(board, start & other);
    assert_eq!(board, Bitboard(0x0000_0000_000f_0f00));
    let mut board = start;
    board ^= other;
    assert_eq!(board, start ^ other);
    assert_eq!(board, Bitboard(0x0000_0000_0ff0_f00f));
    let mut board = start;
    board -= other;
    assert_eq!(board, start - other);
    assert_eq!(board, Bitboard(0x0000_0000_00f0_f000));
    let mut board = start;
    board <<= 4;
    assert_eq!(board, start << 4);
    assert_eq!(board, Bitboard(0x0000_0000_0fff_f000));
    let mut board = start;
    board >>= 12;
    assert_eq!(board, start >> 12);
    assert_eq!(board, Bitboard(0x0000_0000_0000_0fff));
    let mut board = start;
    board |= Square::A1;
    assert_eq!(board, start | Square::A1);
    board &= Square::A1;
    assert_eq!(board, Square::A1.into_bitboard());
    board ^= Square::A2;
    assert_eq!(board, Square::A1 | Square::A2);
    board -= Square::A1;
    assert_eq!(board, Square::A2.into_bitboard());
    assert_eq!(start & Square::B1, Square::B1.into_bitboard());
    assert_eq!(Square::A1 | start, start | Square::A1);
    assert_eq!(Square::H8 >> 63, Square::A1);
    assert_eq!(Square::A1 << 63, Square::H8);
}

#[test]
fn iterators_are_made_from_boards() {
    let board = Bitboard(0b0110);
    assert_eq!(BitboardIterator::new(board).collect(), vec![Square::A2, Square::A3]);
    assert_eq!(
        BitboardPowerSetIterator::new(board).collect(),
        vec![Bitboard(0), Bitboard(0b0010), Bitboard(0b0100), Bitboard(0b0110)]
    );
    let subsets = BitboardPowerSetIterator::new(board);
    assert_eq!(subsets.board, board);
    assert_eq!(subsets.subset, Bitboard(0));
    assert!(!subsets.done);
}

#[test]
fn moves_and_positions_hand_out_their_parts() {
    let chess_move = Move::new(Square::A7, Square::A8, Some(Piece::Queen));
    assert_eq!(chess_move.start(), Square::A7);
    assert_eq!(chess_move.destination(), Square::A8);
    assert_eq!(chess_move.promotion(), Some(Piece::Queen));
    assert_eq!(Move::new(Square::A2, Square::A3, None).promotion(), None);
    let mut position = ChessBoard::default();
    assert_eq!(position.piece_occupancy(Piece::Queen), Square::D1 | Square::D8);
    assert_eq!(position.color_occupancy(Color::Black), Bitboard(RANK_7 | RANK_8));
    assert_eq!(position.occupancy(Piece::Queen, Color::Black), Square::D8.into_bitboard());
    assert_eq!(position.find_piece(Square::D8), Some(Piece::Queen));
    assert_eq!(position.find_piece(Square::D5), None);
    *position.castle_rights_mut(Color::Black) = CastleRights::QueenSide;
    assert_eq!(position.castle_rights(Color::Black), CastleRights::QueenSide);
    assert_eq!(position.castle_rights(Color::White), CastleRights::BothSides);
    position.update_castling(Color::White, Piece::Rook, File::H);
    assert_eq!(position.castle_rights(Color::White), CastleRights::QueenSide);
    position.update_castling(Color::White, Piece::Rook, File::D);
    position.update_castling(Color::White, Piece::Queen, File::A);
    assert_eq!(position.castle_rights(Color::White), CastleRights::QueenSide);
    position.update_castling(Color::White, Piece::King, File::E);
    assert_eq!(position.castle_rights(Color::White), CastleRights::NoSide);
    position.update_castling(Color::Black, Piece::Rook, File::A);
    assert_eq!(position.castle_rights(Color::Black), CastleRights::NoSide);
    position.xor(Color::White, Piece::Pawn, Square::E2);
    assert_eq!(position.find_piece(Square::E2), None);
    assert_eq!(position.combined_occupancy().count(), 31);
    position.xor(Color::White, Piece::Pawn, Square::E2);
    assert_eq!(position.piece_occupancy, ChessBoard::default().piece_occupancy);
}

#[test]
fn tables_are_kept_as_given() {
    let table = bishop_magics().unwrap();
    let magics = table.magics.clone();
    let moves = table.moves.clone();
    let copy = MagicMoves::new(magics, moves);
    assert_eq!(copy.moves, table.moves);
    assert_eq!(
        copy.query(Square::C1, Square::E3.into_bitboard()),
        Square::B2 | Square::A3 | Square::D2 | Square::E3
    );
}
