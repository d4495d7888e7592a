use seer::board::zobrist::{
    castling_rights, en_passant, hash_position, moved_piece, side_to_move,
};
use seer::board::{Bitboard, CastleRights, ChessBoard, Color, File, Piece, Square};
use seer::movegen::wizardry::{
    generate_bishop_magics, generate_bishop_mask, generate_rook_mask, try_magic, Magic, BISHOP_SEED,
    ROOK_SEED,
};
use seer::movegen::{
    bishop_magics, rook_magics, king_moves, king_side_castle_blockers, knight_moves, naive, pawn_attacks, pawn_moves,
    pawn_quiet_moves, queen_moves, queen_side_castle_blockers, PreRolledRng,
};
use seer::utils::{RandGen, SimpleRng};

#[test]
fn keys_are_the_numbers_of_the_generator() {
    let mut rng = SimpleRng::new();
    assert_eq!(side_to_move(), rng.gen());
    for file in File::iter() {
        assert_eq!(en_passant(file), rng.gen());
    }
    for white in CastleRights::iter() {
        for black in CastleRights::iter() {
            assert_eq!(castling_rights([white, black]), rng.gen());
        }
    }
    for color in Color::iter() {
        for piece in Piece::iter() {
            for square in Square::iter() {
                assert_eq!(moved_piece(color, piece, square), rng.gen());
            }
        }
    }
}

#[test]
fn hash_of_two_kings() {
    let position = seer::fen::FromFen::from_fen("4k3/8/8/8/8/8/8/4K3 b - - 0 1");
    let position: ChessBoard = position.unwrap();
    assert_eq!(
        hash_position(&position),
        moved_piece(Color::White, Piece::King, Square::E1)
            ^ moved_piece(Color::Black, Piece::King, Square::E8)
            ^ side_to_move()
            ^ castling_rights([CastleRights::NoSide, CastleRights::NoSide])
    );
}

#[test]
fn pre_rolled_numbers_come_three_times_each() {
    let mut numbers = [0u64; 64];
    for (index, number) in numbers.iter_mut().enumerate() {
        *number = 100 + index as u64;
    }
    let mut rng = PreRolledRng::new(numbers);
    for index in 0..64 {
        for _ in 0..3 {
            assert_eq!(rng.gen(), 100 + index);
        }
    }
    assert_eq!(rng.gen(), 100);
    assert_eq!(rng.current_index, 1);
}

#[test]
fn masks_leave_out_the_far_edges() {
    assert_eq!(generate_bishop_mask(Square::A1), Bitboard(0x0040_2010_0804_0200));
    assert_eq!(generate_bishop_mask(Square::D4).count(), 9);
    assert_eq!(generate_rook_mask(Square::A1), Bitboard(0x0001_0101_0101_017e));
    assert_eq!(generate_rook_mask(Square::A1).count(), 12);
    assert_eq!(generate_rook_mask(Square::D4).count(), 10);
    let mut bishop = 0;
    let mut rook = 0;
    for square in Square::iter() {
        bishop += 1usize << generate_bishop_mask(square).count();
        rook += 1usize << generate_rook_mask(square).count();
    }
    assert_eq!(bishop, 5248);
    assert_eq!(rook, 102400);
}

/// Every set of blockers within the mask of a rook on a square, with the moves it allows.
fn rook_entries(square: Square) -> Vec<(Bitboard, Bitboard)> {
    let mut entries = Vec::new();
    for occupied in generate_rook_mask(square).iter_power_set().collect() {
        entries.push((occupied, naive::rook_moves(square, occupied)));
    }
    entries
}

#[test]
fn candidates_are_tried() {
    let square = Square::C6;
    let mask = generate_rook_mask(square);
    let entries = rook_entries(square);
    let shift = (64 - mask.count()) as u8;
    let good = Magic { magic: ROOK_SEED[square.index()], offset: 0, mask, shift };
    let table = try_magic(&good, &entries).unwrap();
    assert_eq!(table.len(), entries.len());
    for (occupied, moves) in entries.iter() {
        let index = (occupied.0.wrapping_mul(good.magic) >> shift) as usize;
        assert_eq!(good.get_index(*occupied), index);
        assert_eq!(table[good.get_index(*occupied)], *moves);
    }
    let bad = Magic { magic: 0, offset: 0, mask, shift };
    assert!(try_magic(&bad, &entries).is_none());
    let bad = Magic { magic: 1, offset: 0, mask, shift };
    assert!(try_magic(&bad, &entries).is_none());
    let shifted = Magic { magic: good.magic, offset: 1000, mask, shift };
    assert_eq!(shifted.get_index(Bitboard(u64::MAX)), good.get_index(mask) + 1000);
}

/// A generator that hands out the same number for ever.
struct Stuck(u64);

impl RandGen for Stuck {
    fn gen(&mut self) -> u64 {
        self.0
    }
}

#[test]
fn search_finds_the_first_magic_drawn() {
    let mut rng = PreRolledRng::new(BISHOP_SEED);
    let (magics, moves) = generate_bishop_magics(&mut rng).unwrap();
    assert_eq!(rng.current_index, 0);
    let mut offset = 0;
    for square in Square::iter() {
        let magic = &magics[square.index()];
        assert_eq!(magic.magic, BISHOP_SEED[square.index()]);
        assert_eq!(magic.mask, generate_bishop_mask(square));
        assert_eq!(magic.offset, offset);
        offset += 1 << magic.mask.count();
    }
    assert_eq!(moves.len(), offset);
    let _ = Stuck(3).gen();
}

#[test]
fn tables_are_built_with_the_seeds() {
    let bishops = bishop_magics().unwrap();
    let rooks = rook_magics().unwrap();
    for square in Square::iter() {
        assert_eq!(bishops.magics[square.index()].magic, BISHOP_SEED[square.index()]);
        assert_eq!(rooks.magics[square.index()].magic, ROOK_SEED[square.index()]);
        assert_eq!(rooks.magics[square.index()].mask, generate_rook_mask(square));
    }
    assert_eq!(bishops.magics[0].offset, 0);
    assert_eq!(bishops.magics[1].offset, 64);
    assert_eq!(rooks.magics[1].offset, 4096);
}

#[test]
fn candidates_keep_the_bits_of_three_draws() {
    let mut numbers = [u64::MAX; 64];
    numbers[0] = 0b1100;
    let mut rng = PreRolledRng::new(numbers);
    assert_eq!(rng.gen() & rng.gen() & rng.gen(), 0b1100);
    assert_eq!(rng.current_index, 3);
    let mut first = SimpleRng::new();
    let mut second = SimpleRng::new();
    let drawn = RandGen::gen(&mut first);
    assert_eq!(drawn, second.gen());
    assert_eq!(drawn, 64934999470316615);
    assert_eq!(first.0, second.0);
}

#[test]
fn leapers_and_pawns() {
    assert_eq!(knight_moves(Square::A1), Square::B3 | Square::C2);
    assert_eq!(king_moves(Square::A1), Square::A2 | Square::B1 | Square::B2);
    assert_eq!(
        queen_moves(Square::A1, Square::A2 | Square::B2),
        (Bitboard(0x0101_0101_0101_0101) - Square::A1) | Square::A2 | Square::B2
    );
    assert_eq!(pawn_quiet_moves(Color::White, Square::E2, Bitboard(0)), Square::E3 | Square::E4);
    assert_eq!(pawn_quiet_moves(Color::White, Square::E2, Square::E3.into_bitboard()), Bitboard(0));
    assert_eq!(
        pawn_quiet_moves(Color::White, Square::E2, Square::E4.into_bitboard()),
        Square::E3 | Square::E4
    );
    assert_eq!(pawn_quiet_moves(Color::Black, Square::E6, Bitboard(0)), Square::E5.into_bitboard());
    assert_eq!(pawn_quiet_moves(Color::Black, Square::E7, Bitboard(0)), Square::E6 | Square::E5);
    assert_eq!(pawn_quiet_moves(Color::Black, Square::E1, Bitboard(0)), Bitboard(0));
    assert_eq!(pawn_attacks(Color::White, Square::A2), Square::B3.into_bitboard());
    assert_eq!(pawn_attacks(Color::Black, Square::E5), Square::D4 | Square::F4);
    assert_eq!(
        pawn_moves(Color::Black, Square::E5, Bitboard(0)),
        Square::D4 | Square::E4 | Square::F4
    );
    assert_eq!(king_side_castle_blockers(Color::White), Square::F1 | Square::G1);
    assert_eq!(king_side_castle_blockers(Color::Black), Square::F8 | Square::G8);
    assert_eq!(queen_side_castle_blockers(Color::White), Square::B1 | Square::C1 | Square::D1);
    assert_eq!(queen_side_castle_blockers(Color::Black), Square::B8 | Square::C8 | Square::D8);
    for blockers in [Bitboard(0), Bitboard(0x0123_4567_89ab_cdef)] {
        for square in Square::iter() {
            for color in Color::iter() {
                assert_eq!(
                    pawn_quiet_moves(color, square, blockers),
                    naive::pawn_moves(color, square, blockers)
                );
            }
        }
    }
}
