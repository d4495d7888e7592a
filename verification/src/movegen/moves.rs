//! The moves of each piece from each square. The moves of the sliders are followed along their
//! rays here; [MagicMoves] answers the same questions from a table, which [bishop_magics] and
//! [rook_magics] build.

use vstd::prelude::*;

use crate::board::bitboard::{Bitboard, RANK_1, RANK_8};
use crate::board::color::Color;
use crate::board::file::File;
use crate::board::square::Square;
use crate::movegen::naive;
use crate::movegen::naive::{
    bishop_attacks, king_attacks, knight_attacks, pawn_pushes, pawn_targets, rook_attacks,
};
use crate::board::bitboard::popcount;
use crate::movegen::wizardry::generation::{
    after_candidate, candidate_magic, candidate_of, generate_magics, is_magic,
    reference_entries_of, search_square, search_squares, searched, MAX_RELEVANT_SQUARES,
    SEARCH_BUDGET,
};
use crate::movegen::wizardry::mask::relevance_mask;
use crate::movegen::wizardry::{MagicMoves, Slider, BISHOP_SEED, ROOK_SEED};
use crate::utils::bits::lemma_single_bit;
use crate::utils::rand::RandGen;

verus! {

/// A pre-rolled RNG for magic bitboard generation, using pre-determined values.
pub struct PreRolledRng {
    pub numbers: [u64; 64],
    pub current_index: usize,
}

impl PreRolledRng {
    /// A generator that starts with the first of the numbers.
    pub fn new(numbers: [u64; 64]) -> (rng: PreRolledRng)
        ensures
            rng.numbers == numbers,
            rng.current_index == 0,
    {
        PreRolledRng { numbers, current_index: 0 }
    }
}

impl RandGen for PreRolledRng {
    /// Each number is handed out three times in a row, since three numbers are drawn for each
    /// candidate; after the last number the first comes again.
    open spec fn upcoming(&self) -> u64 {
        self.numbers[((self.current_index / 3) % 64) as int]
    }

    open spec fn advanced(&self) -> PreRolledRng {
        PreRolledRng {
            numbers: self.numbers,
            current_index: ((self.current_index % 192 + 1) % 192) as usize,
        }
    }

    fn gen(&mut self) -> (number: u64) {
        // We roll 3 numbers per square to bitwise-and them together.
        // Just return the same one 3 times as a work-around.
        let res = self.numbers[(self.current_index / 3) % 64];
        self.current_index = (self.current_index % 192 + 1) % 192;
        res
    }
}

/// Whether a number is a magic for a slider on the square of an index, whose mask holds a number
/// of squares for which tables are built.
#[verifier::opaque]
pub open spec fn is_magic_number(slider: Slider, index: int, number: u64) -> bool {
    let count = popcount(relevance_mask(slider, Square::spec_from_index(index as usize)));
    1 <= count <= MAX_RELEVANT_SQUARES && is_magic(
        candidate_magic(slider, index, number),
        reference_entries_of(slider, Square::spec_from_index(index as usize)),
    )
}

/// Whether each of the numbers is a magic number for a slider on the square of its place.
pub open spec fn all_magic_numbers(slider: Slider, numbers: [u64; 64]) -> bool {
    forall|index: int| 0 <= index < 64 ==> is_magic_number(slider, index, #[trigger] numbers[index])
}

/// Whether there is a table and its magics hold the given numbers, square by square.
pub open spec fn is_built_with(table: Option<MagicMoves>, numbers: Seq<u64>) -> bool {
    &&& table matches Some(magics)
    &&& magics.magics.len() == 64
    &&& forall|index: int|
        0 <= index < 64 ==> (#[trigger] magics.magics[index]).magic == numbers[index]
}

/// Whether a table is what the search with the given numbers, pre-rolled, leaves behind: where
/// the search finds a magic number for every square, the table of the slider for all squares,
/// built with those magic numbers; where it does not, none.
pub open spec fn is_table_from(
    slider: Slider,
    numbers: [u64; 64],
    table: Option<MagicMoves>,
) -> bool {
    match search_squares(slider, PreRolledRng { numbers, current_index: 0 }, 64) {
        Some((found, _)) => {
            &&& is_built_with(table, found)
            &&& table matches Some(magics)
            &&& magics.serves(slider)
            &&& searched(magics.magics@, magics.moves@, slider, 64)
        },
        None => table.is_none(),
    }
}

/// The candidate that a pre-rolled generator yields when it stands at the first of the three
/// draws of a square: the number of that square. After it the generator stands at the first
/// draw of the next square, or at the very first draw after the last square.
pub proof fn lemma_pre_rolled_candidate(numbers: [u64; 64], index: int)
    requires
        0 <= index < 64,
    ensures
        candidate_of(PreRolledRng { numbers, current_index: (3 * index) as usize })
            == numbers[index],
        after_candidate(PreRolledRng { numbers, current_index: (3 * index) as usize }) == (
        PreRolledRng { numbers, current_index: ((3 * index + 3) % 192) as usize }),
{
    let left = PreRolledRng { numbers, current_index: (3 * index) as usize };
    let second = PreRolledRng { numbers, current_index: (3 * index + 1) as usize };
    let third = PreRolledRng { numbers, current_index: (3 * index + 2) as usize };
    assert(left.advanced() == second);
    assert(second.advanced() == third);
    assert(left.upcoming() == numbers[index]);
    assert(second.upcoming() == numbers[index]);
    assert(third.upcoming() == numbers[index]);
    lemma_same_word(numbers[index]);
}

/// The search on a square finds the first candidate, if that is a magic number for the square.
pub proof fn lemma_first_candidate<R: RandGen>(slider: Slider, index: int, rng: R)
    requires
        is_magic_number(slider, index, candidate_of(rng)),
    ensures
        search_square(slider, index, rng, SEARCH_BUDGET as nat) == Some(
            (candidate_of(rng), after_candidate(rng)),
        ),
        1 <= popcount(relevance_mask(slider, Square::spec_from_index(index as usize)))
            <= MAX_RELEVANT_SQUARES,
{
    reveal(is_magic_number);
    reveal_with_fuel(search_square, 1);
}

/// The search goes on to the next square with the first candidate, if that is a magic number
/// for the square.
pub proof fn lemma_search_goes_on<R: RandGen>(
    slider: Slider,
    rng: R,
    squares: int,
    found: Seq<u64>,
    left: R,
)
    requires
        squares > 0,
        search_squares(slider, rng, squares - 1) == Some((found, left)),
        is_magic_number(slider, squares - 1, candidate_of(left)),
    ensures
        search_squares(slider, rng, squares) == Some(
            (found.push(candidate_of(left)), after_candidate(left)),
        ),
{
    reveal_with_fuel(search_squares, 1);
    lemma_first_candidate(slider, squares - 1, left);
}

/// With pre-rolled numbers of which each is a magic number for its square, the search finds, for
/// each square, the number of that square at the first draw.
pub proof fn lemma_pre_rolled_search(slider: Slider, numbers: [u64; 64], squares: int)
    requires
        0 <= squares <= 64,
        forall|index: int|
            0 <= index < squares ==> is_magic_number(slider, index, #[trigger] numbers[index]),
    ensures
        search_squares(slider, PreRolledRng { numbers, current_index: 0 }, squares) == Some(
            (
                numbers@.subrange(0, squares),
                PreRolledRng { numbers, current_index: ((3 * squares) % 192) as usize },
            ),
        ),
    decreases squares,
{
    let first = PreRolledRng { numbers, current_index: 0 };
    if squares > 0 {
        let index = squares - 1;
        let left = PreRolledRng { numbers, current_index: (3 * index) as usize };
        let found = numbers@.subrange(0, index);
        assert(search_squares(slider, first, index) == Some((found, left))) by {
            lemma_pre_rolled_search(slider, numbers, index);
        }
        assert(is_magic_number(slider, index, candidate_of(left)) && candidate_of(left)
            == numbers[index] && after_candidate(left) == (PreRolledRng {
            numbers,
            current_index: ((3 * squares) % 192) as usize,
        })) by {
            assert(is_magic_number(slider, index, numbers[index]));
            lemma_pre_rolled_candidate(numbers, index);
        }
        assert(search_squares(slider, first, squares) == Some(
            (found.push(candidate_of(left)), after_candidate(left)),
        )) by {
            lemma_search_goes_on(slider, first, squares, found, left);
        }
        assert(found.push(numbers[index]) =~= numbers@.subrange(0, squares));
    } else {
        reveal_with_fuel(search_squares, 1);
        assert(numbers@.subrange(0, 0) =~= Seq::<u64>::empty());
    }
}

/// A word combined with itself is the word itself.
proof fn lemma_same_word(bits: u64)
    by (bit_vector)
    ensures
        bits & bits & bits == bits,
{
}

/// Build the attack table of a slider from numbers that are handed out as [PreRolledRng]
/// hands them out.
fn magics_from(slider: Slider, numbers: [u64; 64]) -> (table: Option<MagicMoves>)
    ensures
        is_table_from(slider, numbers, table),
        all_magic_numbers(slider, numbers) ==> is_built_with(table, numbers@),
{
    let mut rng = PreRolledRng::new(numbers);
    proof {
        if all_magic_numbers(slider, numbers) {
            lemma_pre_rolled_search(slider, numbers, 64);
            assert(numbers@.subrange(0, 64) =~= numbers@);
        }
    }
    match generate_magics(&mut rng, slider) {
        Some((magics, moves)) => Some(MagicMoves::new(magics, moves)),
        None => None,
    }
}

/// Build the attack table of the bishop from the magic numbers that are known to work: the
/// table that the search leaves behind when it draws those numbers. Where each of them is a
/// magic number for its square, that is the table built with them.
pub fn bishop_magics() -> (table: Option<MagicMoves>)
    ensures
        is_table_from(Slider::Bishop, BISHOP_SEED, table),
        all_magic_numbers(Slider::Bishop, BISHOP_SEED) ==> is_built_with(table, BISHOP_SEED@),
{
    magics_from(Slider::Bishop, BISHOP_SEED)
}

/// Build the attack table of the rook from the magic numbers that are known to work: the table
/// that the search leaves behind when it draws those numbers. Where each of them is a magic
/// number for its square, that is the table built with them.
pub fn rook_magics() -> (table: Option<MagicMoves>)
    ensures
        is_table_from(Slider::Rook, ROOK_SEED, table),
        all_magic_numbers(Slider::Rook, ROOK_SEED) ==> is_built_with(table, ROOK_SEED@),
{
    magics_from(Slider::Rook, ROOK_SEED)
}

/// The squares that must be empty for a king-side castle: files F and G of the first rank of the
/// color.
pub open spec fn king_side_castle_squares(color: Color) -> u64 {
    Square::spec_new(File::F, color.spec_first_rank()).bit() | Square::spec_new(
        File::G,
        color.spec_first_rank(),
    ).bit()
}

/// The squares that must be empty for a queen-side castle: files B, C and D of the first rank of
/// the color.
pub open spec fn queen_side_castle_squares(color: Color) -> u64 {
    Square::spec_new(File::B, color.spec_first_rank()).bit() | Square::spec_new(
        File::C,
        color.spec_first_rank(),
    ).bit() | Square::spec_new(File::D, color.spec_first_rank()).bit()
}

/// Compute the set of possible non-attack moves for a pawn on a [Square], given its [Color] and
/// set of blockers.
pub fn pawn_quiet_moves(color: Color, square: Square, blockers: Bitboard) -> (moves: Bitboard)
    ensures
        moves.0 == pawn_pushes(color, square, blockers.0),
{
    proof {
        lemma_blocked_from_behind(square.spec_index() as u64, blockers.0);
        lemma_single_bit(square.spec_index() as u64);
    }
    // If there is a piece in front of the pawn, it can't advance
    if !(color.backward_direction().move_board(blockers) & square).is_empty() {
        return Bitboard::empty();
    }
    naive::pawn_moves(color, square, Bitboard::empty())
}

/// Compute the set of possible attacks for a pawn on a [Square], given its [Color].
pub fn pawn_attacks(color: Color, square: Square) -> (attacks: Bitboard)
    ensures
        attacks.0 == pawn_targets(color, square),
{
    naive::pawn_captures(color, square)
}

/// Compute the set of possible moves for a pawn on a [Square], given its [Color] and set of
/// blockers.
pub fn pawn_moves(color: Color, square: Square, blockers: Bitboard) -> (moves: Bitboard)
    ensures
        moves.0 == pawn_pushes(color, square, blockers.0) | pawn_targets(color, square),
{
    pawn_quiet_moves(color, square, blockers) | pawn_attacks(color, square)
}

/// Compute the set of possible moves for a knight on a [Square].
pub fn knight_moves(square: Square) -> (moves: Bitboard)
    ensures
        moves.0 == knight_attacks(square.bit()),
{
    naive::knight_moves(square)
}

/// Compute the set of possible moves for a bishop on a [Square], given its set of blockers.
pub fn bishop_moves(square: Square, blockers: Bitboard) -> (moves: Bitboard)
    ensures
        moves.0 == bishop_attacks(square.bit(), blockers.0),
{
    naive::bishop_moves(square, blockers)
}

/// Compute the set of possible moves for a rook on a [Square], given its set of blockers.
pub fn rook_moves(square: Square, blockers: Bitboard) -> (moves: Bitboard)
    ensures
        moves.0 == rook_attacks(square.bit(), blockers.0),
{
    naive::rook_moves(square, blockers)
}

/// Compute the set of possible moves for a queen on a [Square], given its set of blockers.
pub fn queen_moves(square: Square, blockers: Bitboard) -> (moves: Bitboard)
    ensures
        moves.0 == bishop_attacks(square.bit(), blockers.0) | rook_attacks(
            square.bit(),
            blockers.0,
        ),
{
    bishop_moves(square, blockers) | rook_moves(square, blockers)
}

/// Compute the set of possible moves for a king on a [Square].
pub fn king_moves(square: Square) -> (moves: Bitboard)
    ensures
        moves.0 == king_attacks(square.bit()),
{
    naive::king_moves(square)
}

/// Compute the squares which should be empty for a king-side castle of the given [Color].
pub fn king_side_castle_blockers(color: Color) -> (squares: Bitboard)
    ensures
        squares.0 == king_side_castle_squares(color),
{
    let rank = color.first_rank();
    Square::new(File::F, rank) | Square::new(File::G, rank)
}

/// Compute the squares which should be empty for a queen-side castle of the given [Color].
pub fn queen_side_castle_blockers(color: Color) -> (squares: Bitboard)
    ensures
        squares.0 == queen_side_castle_squares(color),
{
    let rank = color.first_rank();
    Square::new(File::B, rank) | Square::new(File::C, rank) | Square::new(File::D, rank)
}

/// A blocker stands in front of a square exactly when, moved one step back, it stands on the
/// square; and a square on the first or last rank has no square in front of it or none behind.
proof fn lemma_blocked_from_behind(index: u64, blockers: u64)
    by (bit_vector)
    requires
        index < 64,
    ensures
        (((blockers & !RANK_1) >> 1) & (1u64 << index) != 0) <==> ((((1u64
            << index) & !RANK_8) << 1) & blockers != 0),
        (((blockers & !RANK_8) << 1) & (1u64 << index) != 0) <==> ((((1u64
            << index) & !RANK_1) >> 1) & blockers != 0),
        ((1u64 << index) & !RANK_8) << 1 & 0 == 0,
        ((1u64 << index) & !RANK_1) >> 1 & 0 == 0,
{
}

} // verus!
