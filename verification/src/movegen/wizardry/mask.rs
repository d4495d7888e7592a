use vstd::prelude::*;

use crate::board::bitboard::{Bitboard, FILE_A, FILE_H, FILE_MASKS, RANK_1, RANK_8, RANK_MASKS};
use crate::board::direction::{lemma_shifted_single, Direction};
use crate::board::file::File;
use crate::board::rank::Rank;
use crate::board::square::Square;
use crate::movegen::naive::bishop::{bishop_attacks, bishop_moves};
use crate::movegen::naive::rook::{rook_attacks, rook_moves};
use crate::utils::bits::lemma_bits_of_zero;

verus! {

/// The pieces that slide, for which attack tables are built.
#[derive(Copy, Clone, Debug, PartialEq, Eq, Hash, Structural)]
pub enum Slider {
    Bishop,
    Rook,
}

/// The squares that sliders standing on `bits` attack, given the `blockers`.
pub open spec fn slider_attacks(slider: Slider, bits: u64, blockers: u64) -> u64 {
    match slider {
        Slider::Bishop => bishop_attacks(bits, blockers),
        Slider::Rook => rook_attacks(bits, blockers),
    }
}

/// The squares on which a piece can change what a bishop attacks from a square: the squares the
/// bishop attacks on an empty board, without the edges of the board.
pub open spec fn bishop_mask(square: Square) -> u64 {
    bishop_attacks(square.bit(), 0) & !(FILE_A | FILE_H | RANK_1 | RANK_8)
}

/// The edges of the board on which a square does not lie.
pub open spec fn far_edges(square: Square) -> u64 {
    (if square.spec_file() != File::A {
        FILE_A
    } else {
        0
    }) | (if square.spec_file() != File::H {
        FILE_H
    } else {
        0
    }) | (if square.spec_rank() != Rank::First {
        RANK_1
    } else {
        0
    }) | (if square.spec_rank() != Rank::Eighth {
        RANK_8
    } else {
        0
    })
}

/// The squares on which a piece can change what a rook attacks from a square: the squares the
/// rook attacks on an empty board, without the edges of the board on which the rook does not
/// stand.
pub open spec fn rook_mask(square: Square) -> u64 {
    rook_attacks(square.bit(), 0) & !far_edges(square)
}

/// The squares on which a piece can change what a slider attacks from a square.
pub open spec fn relevance_mask(slider: Slider, square: Square) -> u64 {
    match slider {
        Slider::Bishop => bishop_mask(square),
        Slider::Rook => rook_mask(square),
    }
}

/// The edges of the board beyond which a step in a direction would lead.
pub open spec fn edges_ahead(direction: Direction) -> u64 {
    (if direction.rank_step() > 0 {
        RANK_8
    } else if direction.rank_step() < 0 {
        RANK_1
    } else {
        0
    }) | (if direction.file_step() > 0 {
        FILE_H
    } else if direction.file_step() < 0 {
        FILE_A
    } else {
        0
    })
}

/// Compute the relevancy mask for a bishop on a given [Square].
pub fn generate_bishop_mask(square: Square) -> (mask: Bitboard)
    ensures
        mask.0 == bishop_mask(square),
{
    let rays = bishop_moves(square, Bitboard::empty());

    let mask = File::A.into_bitboard() | File::H.into_bitboard() | Rank::First.into_bitboard()
        | Rank::Eighth.into_bitboard();

    rays - mask
}

/// Compute the relevancy mask for a rook on a given [Square].
pub fn generate_rook_mask(square: Square) -> (mask: Bitboard)
    ensures
        mask.0 == rook_mask(square),
{
    let rays = rook_moves(square, Bitboard::empty());

    let mask = (if square.file() != File::A {
        File::A.into_bitboard()
    } else {
        Bitboard::empty()
    }) | (if square.file() != File::H {
        File::H.into_bitboard()
    } else {
        Bitboard::empty()
    }) | (if square.rank() != Rank::First {
        Rank::First.into_bitboard()
    } else {
        Bitboard::empty()
    }) | (if square.rank() != Rank::Eighth {
        Rank::Eighth.into_bitboard()
    } else {
        Bitboard::empty()
    });

    rays - mask
}

/// Compute the relevancy mask for a slider on a given [Square].
pub fn generate_mask(slider: Slider, square: Square) -> (mask: Bitboard)
    ensures
        mask.0 == relevance_mask(slider, square),
{
    match slider {
        Slider::Bishop => generate_bishop_mask(square),
        Slider::Rook => generate_rook_mask(square),
    }
}

/// The naive attack set of a slider on a given [Square].
pub fn reference_moves(slider: Slider, square: Square, blockers: Bitboard) -> (moves: Bitboard)
    ensures
        moves.0 == slider_attacks(slider, square.bit(), blockers.0),
{
    match slider {
        Slider::Bishop => bishop_moves(square, blockers),
        Slider::Rook => rook_moves(square, blockers),
    }
}

/// One step of a slider and the edges of the board: no step leads onto the edge it leads away
/// from; a step from a single square that stays on the board did not start on an edge it leads
/// to; and a slider has a step that stays on the board from every square.
proof fn lemma_steps_and_edges(bits: u64, index: u64)
    by (bit_vector)
    requires
        index < 64,
    ensures
        ((bits & !RANK_8) << 1) & RANK_1 == 0,
        (bits >> 8) & FILE_H == 0,
        ((bits & !RANK_1) >> 1) & RANK_8 == 0,
        (bits << 8) & FILE_A == 0,
        ((bits & !RANK_8) >> 7) & (RANK_1 | FILE_H) == 0,
        ((bits & !RANK_1) >> 9) & (RANK_8 | FILE_H) == 0,
        ((bits & !RANK_1) << 7) & (RANK_8 | FILE_A) == 0,
        ((bits & !RANK_8) << 9) & (RANK_1 | FILE_A) == 0,
        (((1u64 << index) & !RANK_8) << 1) != 0 ==> (1u64 << index) & RANK_8 == 0,
        ((1u64 << index) >> 8) != 0 ==> (1u64 << index) & FILE_A == 0,
        (((1u64 << index) & !RANK_1) >> 1) != 0 ==> (1u64 << index) & RANK_1 == 0,
        ((1u64 << index) << 8) != 0 ==> (1u64 << index) & FILE_H == 0,
        (((1u64 << index) & !RANK_8) >> 7) != 0 ==> (1u64 << index) & (RANK_8 | FILE_A) == 0,
        (((1u64 << index) & !RANK_1) >> 9) != 0 ==> (1u64 << index) & (RANK_1 | FILE_A) == 0,
        (((1u64 << index) & !RANK_1) << 7) != 0 ==> (1u64 << index) & (RANK_1 | FILE_H) == 0,
        (((1u64 << index) & !RANK_8) << 9) != 0 ==> (1u64 << index) & (RANK_8 | FILE_H) == 0,
        ((((1u64 << index) & !RANK_8) >> 7) | (((1u64 << index) & !RANK_1) >> 9) | (((1u64
            << index) & !RANK_1) << 7) | (((1u64 << index) & !RANK_8) << 9)) != 0,
        ((((1u64 << index) & !RANK_8) << 1) | ((1u64 << index) >> 8) | (((1u64 << index)
            & !RANK_1) >> 1) | ((1u64 << index) << 8)) != 0,
{
}

/// A step along a file stays on the file, and a step along a rank on the rank.
proof fn lemma_steps_in_line(bits: u64, file: u64, rank: u64)
    by (bit_vector)
    requires
        file < 8,
        rank < 8,
    ensures
        bits & !(FILE_A << (file * 8)) == 0 ==> ((bits & !RANK_8) << 1) & !(FILE_A << (file * 8))
            == 0 && ((bits & !RANK_1) >> 1) & !(FILE_A << (file * 8)) == 0,
        bits & !(RANK_1 << rank) == 0 ==> (bits << 8) & !(RANK_1 << rank) == 0 && (bits >> 8) & !(
        RANK_1 << rank) == 0,
{
}

/// The edges of the board that steps in a direction lead away from.
pub open spec fn edges_behind(direction: Direction) -> u64 {
    (if direction.rank_step() > 0 {
        RANK_1
    } else if direction.rank_step() < 0 {
        RANK_8
    } else {
        0
    }) | (if direction.file_step() > 0 {
        FILE_A
    } else if direction.file_step() < 0 {
        FILE_H
    } else {
        0
    })
}

/// The squares of a ray, made of its first step and the rest: what lies off some squares, what
/// lies within a mask, and whether the first step meets a blocker that the mask keeps.
proof fn lemma_ray_bits(step: u64, rest: u64, blockers: u64, mask: u64, ahead: u64)
    by (bit_vector)
    ensures
        step & ahead == 0 && rest & ahead == 0 ==> (step | rest) & ahead == 0,
        step & !mask == 0 && rest & !mask == 0 ==> (step | rest) & !mask == 0,
        ((step | rest) & !ahead) & !mask == 0 ==> (rest & !ahead) & !mask == 0,
        ((step | rest) & !ahead) & !mask == 0 && step & ahead == 0
            ==> (step & blockers != 0 <==> step
            & (blockers & mask) != 0),
        step != 0 ==> step | rest != 0 && rest | step != 0,
{
}

/// The rays of a bishop on an empty board, without the edge that each leads to, lie within
/// the bishop's mask.
proof fn lemma_bishop_mask_bits(north_west: u64, south_west: u64, south_east: u64, north_east: u64)
    by (bit_vector)
    requires
        north_west & (RANK_1 | FILE_H) == 0,
        south_west & (RANK_8 | FILE_H) == 0,
        south_east & (RANK_8 | FILE_A) == 0,
        north_east & (RANK_1 | FILE_A) == 0,
    ensures
        ({
            let mask = (north_west | south_west | south_east | north_east) & !(FILE_A | FILE_H | RANK_1
                | RANK_8);
            &&& (north_west & !(RANK_8 | FILE_A)) & !mask == 0
            &&& (south_west & !(RANK_1 | FILE_A)) & !mask == 0
            &&& (south_east & !(RANK_1 | FILE_H)) & !mask == 0
            &&& (north_east & !(RANK_8 | FILE_H)) & !mask == 0
        }),
{
}

/// The rays of a rook on an empty board, without the edge that each leads to, lie within the
/// rook's mask.
proof fn lemma_rook_mask_bits(
    north: u64,
    west: u64,
    south: u64,
    east: u64,
    file: u64,
    rank: u64,
    on_a: bool,
    on_h: bool,
    on_first: bool,
    on_eighth: bool,
)
    by (bit_vector)
    requires
        north & !file == 0,
        south & !file == 0,
        west & !rank == 0,
        east & !rank == 0,
        north & RANK_1 == 0,
        south & RANK_8 == 0,
        east & FILE_A == 0,
        west & FILE_H == 0,
        !on_a ==> file & FILE_A == 0,
        !on_h ==> file & FILE_H == 0,
        !on_first ==> rank & RANK_1 == 0,
        !on_eighth ==> rank & RANK_8 == 0,
    ensures
        ({
            let mask = (north | west | south | east) & !((if !on_a {
                FILE_A
            } else {
                0
            }) | (if !on_h {
                FILE_H
            } else {
                0
            }) | (if !on_first {
                RANK_1
            } else {
                0
            }) | (if !on_eighth {
                RANK_8
            } else {
                0
            }));
            &&& (north & !RANK_8) & !mask == 0
            &&& (west & !FILE_A) & !mask == 0
            &&& (south & !RANK_1) & !mask == 0
            &&& (east & !FILE_H) & !mask == 0
        }),
{
}

/// A ray never reaches the edges that its steps lead away from.
proof fn lemma_ray_leaves_edges(direction: Direction, bits: u64, blockers: u64, steps: nat)
    requires
        direction.is_rook() || direction.is_bishop(),
    ensures
        direction.ray(bits, blockers, steps) & edges_behind(direction) == 0,
    decreases steps,
{
    lemma_bits_of_zero();
    if steps > 0 && bits != 0 {
        let next = direction.shifted(bits);
        lemma_steps_and_edges(bits, 0);
        lemma_ray_leaves_edges(direction, next, blockers, (steps - 1) as nat);
        lemma_ray_bits(
            next,
            direction.ray(next, blockers, (steps - 1) as nat),
            0,
            0,
            edges_behind(direction),
        );
    }
}

/// A ray along a file stays on the file, and a ray along a rank on the rank.
proof fn lemma_ray_in_line(direction: Direction, bits: u64, blockers: u64, steps: nat, line: int)
    requires
        direction.is_rook(),
        0 <= line < 8,
        bits & !(if direction.file_step() == 0 {
            FILE_MASKS[line]
        } else {
            RANK_MASKS[line]
        }) == 0,
    ensures
        direction.ray(bits, blockers, steps) & !(if direction.file_step() == 0 {
            FILE_MASKS[line]
        } else {
            RANK_MASKS[line]
        }) == 0,
    decreases steps,
{
    lemma_bits_of_zero();
    let mask = if direction.file_step() == 0 {
        FILE_MASKS[line]
    } else {
        RANK_MASKS[line]
    };
    if steps > 0 && bits != 0 {
        let next = direction.shifted(bits);
        lemma_lines(line as u64, line as u64);
        lemma_steps_in_line(bits, line as u64, line as u64);
        lemma_ray_in_line(direction, next, blockers, (steps - 1) as nat, line);
        lemma_ray_bits(next, direction.ray(next, blockers, (steps - 1) as nat), 0, mask, 0);
    }
}

/// What a slider reaches along a ray from a single square does not depend on the blockers off
/// a mask, if the mask holds every square of the ray on the empty board but the one on the edge
/// that the ray leads to.
proof fn lemma_ray_relevant(
    direction: Direction,
    from: int,
    blockers: u64,
    mask: u64,
    steps: nat,
)
    requires
        direction.is_rook() || direction.is_bishop(),
        0 <= from < 64,
        (direction.ray(1u64 << (from as u64), 0, steps) & !edges_ahead(direction)) & !mask == 0,
    ensures
        direction.ray(1u64 << (from as u64), blockers, steps) == direction.ray(
            1u64 << (from as u64),
            blockers & mask,
            steps,
        ),
    decreases steps,
{
    lemma_bits_of_zero();
    let bits = 1u64 << (from as u64);
    if steps > 0 && bits != 0 {
        let next = direction.shifted(bits);
        let to = from + 8 * direction.file_step() + direction.rank_step();
        lemma_shifted_single(direction, from);
        if next != 0 {
            let further = direction.shifted(next);
            let free = direction.ray(next, 0, (steps - 1) as nat);
            lemma_ray_bits(next, free, blockers, mask, edges_ahead(direction));
            if further == 0 {
                if steps > 1 {
                    assert(direction.ray(0, blockers, (steps - 2) as nat) == 0);
                    assert(direction.ray(0, blockers & mask, (steps - 2) as nat) == 0);
                    assert(direction.ray(0, 0, (steps - 2) as nat) == 0);
                }
                assert(direction.ray(next, blockers, (steps - 1) as nat) == 0);
                assert(direction.ray(next, blockers & mask, (steps - 1) as nat) == 0);
            } else {
                lemma_steps_and_edges(0, to as u64);
                lemma_ray_relevant(direction, to, blockers, mask, (steps - 1) as nat);
            }
        } else {
            assert(direction.ray(0, blockers, (steps - 1) as nat) == 0);
            assert(direction.ray(0, blockers & mask, (steps - 1) as nat) == 0);
        }
    }
}

/// What a slider attacks from a square depends on the blockers within its mask alone.
pub proof fn lemma_mask_is_relevant(slider: Slider, square: Square, blockers: u64)
    ensures
        slider_attacks(slider, square.bit(), blockers) == slider_attacks(
            slider,
            square.bit(),
            blockers & relevance_mask(slider, square),
        ),
{
    let from = square.spec_index() as int;
    let bits = square.bit();
    let mask = relevance_mask(slider, square);
    lemma_bits_of_zero();
    match slider {
        Slider::Bishop => {
            lemma_ray_leaves_edges(Direction::NorthWest, bits, 0, 8);
            lemma_ray_leaves_edges(Direction::SouthWest, bits, 0, 8);
            lemma_ray_leaves_edges(Direction::SouthEast, bits, 0, 8);
            lemma_ray_leaves_edges(Direction::NorthEast, bits, 0, 8);
            lemma_bishop_mask_bits(
                Direction::NorthWest.slid(bits, 0),
                Direction::SouthWest.slid(bits, 0),
                Direction::SouthEast.slid(bits, 0),
                Direction::NorthEast.slid(bits, 0),
            );
            lemma_ray_relevant(Direction::NorthWest, from, blockers, mask, 8);
            lemma_ray_relevant(Direction::SouthWest, from, blockers, mask, 8);
            lemma_ray_relevant(Direction::SouthEast, from, blockers, mask, 8);
            lemma_ray_relevant(Direction::NorthEast, from, blockers, mask, 8);
        },
        Slider::Rook => {
            let (file, rank) = (from / 8, from % 8);
            lemma_lines(file as u64, rank as u64);
            lemma_ray_leaves_edges(Direction::North, bits, 0, 8);
            lemma_ray_leaves_edges(Direction::West, bits, 0, 8);
            lemma_ray_leaves_edges(Direction::South, bits, 0, 8);
            lemma_ray_leaves_edges(Direction::East, bits, 0, 8);
            lemma_ray_in_line(Direction::North, bits, 0, 8, file);
            lemma_ray_in_line(Direction::West, bits, 0, 8, rank);
            lemma_ray_in_line(Direction::South, bits, 0, 8, file);
            lemma_ray_in_line(Direction::East, bits, 0, 8, rank);
            lemma_rook_mask_bits(
                Direction::North.slid(bits, 0),
                Direction::West.slid(bits, 0),
                Direction::South.slid(bits, 0),
                Direction::East.slid(bits, 0),
                FILE_MASKS[file],
                RANK_MASKS[rank],
                square.spec_file() == File::A,
                square.spec_file() == File::H,
                square.spec_rank() == Rank::First,
                square.spec_rank() == Rank::Eighth,
            );
            lemma_ray_relevant(Direction::North, from, blockers, mask, 8);
            lemma_ray_relevant(Direction::West, from, blockers, mask, 8);
            lemma_ray_relevant(Direction::South, from, blockers, mask, 8);
            lemma_ray_relevant(Direction::East, from, blockers, mask, 8);
        },
    }
}

/// The squares of a file and of a rank, as the squares of the first file and of the first rank
/// moved up: they hold the squares on that file and rank, and meet an edge of the board only
/// where they are that edge.
proof fn lemma_lines(file: u64, rank: u64)
    by (bit_vector)
    requires
        file < 8,
        rank < 8,
    ensures
        (1u64 << (file * 8 + rank)) & !(FILE_A << (file * 8)) == 0,
        (1u64 << (file * 8 + rank)) & !(RANK_1 << rank) == 0,
        file != 0 ==> (FILE_A << (file * 8)) & FILE_A == 0,
        file != 7 ==> (FILE_A << (file * 8)) & FILE_H == 0,
        rank != 0 ==> (RANK_1 << rank) & RANK_1 == 0,
        rank != 7 ==> (RANK_1 << rank) & RANK_8 == 0,
        file == 0 ==> FILE_A << (file * 8) == 0x0000_0000_0000_00ffu64,
        file == 1 ==> FILE_A << (file * 8) == 0x0000_0000_0000_ff00u64,
        file == 2 ==> FILE_A << (file * 8) == 0x0000_0000_00ff_0000u64,
        file == 3 ==> FILE_A << (file * 8) == 0x0000_0000_ff00_0000u64,
        file == 4 ==> FILE_A << (file * 8) == 0x0000_00ff_0000_0000u64,
        file == 5 ==> FILE_A << (file * 8) == 0x0000_ff00_0000_0000u64,
        file == 6 ==> FILE_A << (file * 8) == 0x00ff_0000_0000_0000u64,
        file == 7 ==> FILE_A << (file * 8) == 0xff00_0000_0000_0000u64,
        rank == 0 ==> RANK_1 << rank == 0x0101_0101_0101_0101u64,
        rank == 1 ==> RANK_1 << rank == 0x0202_0202_0202_0202u64,
        rank == 2 ==> RANK_1 << rank == 0x0404_0404_0404_0404u64,
        rank == 3 ==> RANK_1 << rank == 0x0808_0808_0808_0808u64,
        rank == 4 ==> RANK_1 << rank == 0x1010_1010_1010_1010u64,
        rank == 5 ==> RANK_1 << rank == 0x2020_2020_2020_2020u64,
        rank == 6 ==> RANK_1 << rank == 0x4040_4040_4040_4040u64,
        rank == 7 ==> RANK_1 << rank == 0x8080_8080_8080_8080u64,
{
}

/// A slider attacks at least one square, wherever it stands and whatever blocks it.
pub proof fn lemma_attacks_not_empty(slider: Slider, square: Square, blockers: u64)
    ensures
        slider_attacks(slider, square.bit(), blockers) != 0,
{
    lemma_bits_of_zero();
    let bits = square.bit();
    lemma_steps_and_edges(0, square.spec_index() as u64);
    crate::utils::bits::lemma_single_bit(square.spec_index() as u64);
    assert forall|direction: Direction|
        (direction.is_rook() || direction.is_bishop()) && direction.shifted(bits)
            != 0 implies #[trigger] direction.slid(bits, blockers) != 0 by {
        let next = direction.shifted(bits);
        lemma_ray_bits(next, direction.ray(next, blockers, 7), 0, 0, 0);
    }
    lemma_unions_not_empty(
        Direction::NorthWest.shifted(bits),
        Direction::SouthWest.shifted(bits),
        Direction::SouthEast.shifted(bits),
        Direction::NorthEast.shifted(bits),
        Direction::NorthWest.slid(bits, blockers),
        Direction::SouthWest.slid(bits, blockers),
        Direction::SouthEast.slid(bits, blockers),
        Direction::NorthEast.slid(bits, blockers),
    );
    lemma_unions_not_empty(
        Direction::North.shifted(bits),
        Direction::West.shifted(bits),
        Direction::South.shifted(bits),
        Direction::East.shifted(bits),
        Direction::North.slid(bits, blockers),
        Direction::West.slid(bits, blockers),
        Direction::South.slid(bits, blockers),
        Direction::East.slid(bits, blockers),
    );
}

/// Four boards of which one is not empty where one of four others is not, and their unions.
proof fn lemma_unions_not_empty(a: u64, b: u64, c: u64, d: u64, e: u64, f: u64, g: u64, h: u64)
    by (bit_vector)
    requires
        a != 0 ==> e != 0,
        b != 0 ==> f != 0,
        c != 0 ==> g != 0,
        d != 0 ==> h != 0,
        (a | b | c | d) != 0,
    ensures
        (e | f | g | h) != 0,
{
}

} // verus!
