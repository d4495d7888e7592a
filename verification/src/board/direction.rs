use vstd::prelude::*;

use crate::board::bitboard::{has_bit, Bitboard, RANK_1, RANK_2, RANK_7, RANK_8};
use crate::board::rank::Rank;
use crate::board::square::Square;
use crate::utils::bits::{
    lemma_bits_of_zero, lemma_has_bit_algebra, lemma_single_bit, lemma_single_bit_popcount,
    lemma_trailing_zeros, lemma_xor_algebra,
};

verus! {

/// A direction on the board. Either along the rook, bishop, or knight directions
#[derive(Copy, Clone, Debug, PartialEq, Eq, PartialOrd, Ord, Hash, Structural)]
pub enum Direction {
    North,
    West,
    South,
    East,
    NorthWest,
    SouthWest,
    SouthEast,
    NorthEast,
    NorthNorthWest,
    NorthWestWest,
    SouthWestWest,
    SouthSouthWest,
    SouthSouthEast,
    SouthEastEast,
    NorthEastEast,
    NorthNorthEast,
}

impl Direction {
    /// Directions that a rook could use.
    pub const ROOK_DIRECTIONS: [Direction; 4] = [
        Direction::North,
        Direction::West,
        Direction::South,
        Direction::East,
    ];

    /// Directions that a bishop could use.
    pub const BISHOP_DIRECTIONS: [Direction; 4] = [
        Direction::NorthWest,
        Direction::SouthWest,
        Direction::SouthEast,
        Direction::NorthEast,
    ];

    /// Directions that a knight could use.
    pub const KNIGHT_DIRECTIONS: [Direction; 8] = [
        Direction::NorthNorthWest,
        Direction::NorthWestWest,
        Direction::SouthWestWest,
        Direction::SouthSouthWest,
        Direction::SouthSouthEast,
        Direction::SouthEastEast,
        Direction::NorthEastEast,
        Direction::NorthNorthEast,
    ];

    /// How many files to the east one step in this direction leads.
    pub open spec fn file_step(self) -> int {
        match self {
            Direction::North => 0,
            Direction::West => -1,
            Direction::South => 0,
            Direction::East => 1,
            Direction::NorthWest => -1,
            Direction::SouthWest => -1,
            Direction::SouthEast => 1,
            Direction::NorthEast => 1,
            Direction::NorthNorthWest => -1,
            Direction::NorthWestWest => -2,
            Direction::SouthWestWest => -2,
            Direction::SouthSouthWest => -1,
            Direction::SouthSouthEast => 1,
            Direction::SouthEastEast => 2,
            Direction::NorthEastEast => 2,
            Direction::NorthNorthEast => 1,
        }
    }

    /// How many ranks to the north one step in this direction leads.
    pub open spec fn rank_step(self) -> int {
        match self {
            Direction::North => 1,
            Direction::West => 0,
            Direction::South => -1,
            Direction::East => 0,
            Direction::NorthWest => 1,
            Direction::SouthWest => -1,
            Direction::SouthEast => -1,
            Direction::NorthEast => 1,
            Direction::NorthNorthWest => 2,
            Direction::NorthWestWest => 1,
            Direction::SouthWestWest => -1,
            Direction::SouthSouthWest => -2,
            Direction::SouthSouthEast => -2,
            Direction::SouthEastEast => -1,
            Direction::NorthEastEast => 1,
            Direction::NorthNorthEast => 2,
        }
    }

    /// The direction that leads back from where this one leads.
    pub open spec fn opposite(self) -> Direction {
        match self {
            Direction::North => Direction::South,
            Direction::West => Direction::East,
            Direction::South => Direction::North,
            Direction::East => Direction::West,
            Direction::NorthWest => Direction::SouthEast,
            Direction::SouthWest => Direction::NorthEast,
            Direction::SouthEast => Direction::NorthWest,
            Direction::NorthEast => Direction::SouthWest,
            Direction::NorthNorthWest => Direction::SouthSouthEast,
            Direction::NorthWestWest => Direction::SouthEastEast,
            Direction::SouthWestWest => Direction::NorthEastEast,
            Direction::SouthSouthWest => Direction::NorthNorthEast,
            Direction::SouthSouthEast => Direction::NorthNorthWest,
            Direction::SouthEastEast => Direction::NorthWestWest,
            Direction::NorthEastEast => Direction::SouthWestWest,
            Direction::NorthNorthEast => Direction::SouthSouthWest,
        }
    }

    /// Whether this is one of the rook's directions.
    pub open spec fn is_rook(self) -> bool {
        self == Direction::North || self == Direction::West || self == Direction::South || self
            == Direction::East
    }

    /// Whether this is one of the bishop's directions.
    pub open spec fn is_bishop(self) -> bool {
        self == Direction::NorthWest || self == Direction::SouthWest || self
            == Direction::SouthEast || self == Direction::NorthEast
    }

    /// The board with each of its pieces one step further in this direction. The ranks from which
    /// the step would leave the board are taken out before the word is shifted; the step leaves
    /// the word itself where it would pass the first or the last file.
    pub open spec fn shifted(self, bits: u64) -> u64 {
        match self {
            Direction::North => (bits & !RANK_8) << 1,
            Direction::West => bits >> 8,
            Direction::South => (bits & !RANK_1) >> 1,
            Direction::East => bits << 8,
            Direction::NorthWest => (bits & !RANK_8) >> 7,
            Direction::SouthWest => (bits & !RANK_1) >> 9,
            Direction::SouthEast => (bits & !RANK_1) << 7,
            Direction::NorthEast => (bits & !RANK_8) << 9,
            Direction::NorthNorthWest => (bits & !RANK_8 & !RANK_7) >> 6,
            Direction::NorthWestWest => (bits & !RANK_8) >> 15,
            Direction::SouthWestWest => (bits & !RANK_1) >> 17,
            Direction::SouthSouthWest => (bits & !RANK_1 & !RANK_2) >> 10,
            Direction::SouthSouthEast => (bits & !RANK_1 & !RANK_2) << 6,
            Direction::SouthEastEast => (bits & !RANK_1) << 15,
            Direction::NorthEastEast => (bits & !RANK_8) << 17,
            Direction::NorthNorthEast => (bits & !RANK_8 & !RANK_7) << 10,
        }
    }

    /// The squares that the pieces of a board reach when they go on by steps in this direction,
    /// all together, for at most `steps` steps. The steps end as soon as one of the pieces has
    /// reached one of the `blockers`, for all the pieces: the squares reached by that step are
    /// the last that count.
    pub open spec fn ray(self, bits: u64, blockers: u64, steps: nat) -> u64
        decreases steps,
    {
        if steps == 0 || bits == 0 {
            0
        } else {
            let next = self.shifted(bits);
            if next & blockers != 0 {
                next
            } else {
                next | self.ray(next, blockers, (steps - 1) as nat)
            }
        }
    }

    /// The squares that the pieces of a board reach when they slide in this direction until they
    /// leave the board or reach one of the `blockers`: no piece can take more than seven steps.
    pub open spec fn slid(self, bits: u64, blockers: u64) -> u64 {
        self.ray(bits, blockers, 8)
    }

    /// Iterate over all directions a rook can take.
    pub fn iter_rook() -> (all: Vec<Direction>)
        ensures
            all@ == Direction::ROOK_DIRECTIONS@,
    {
        vec![Direction::North, Direction::West, Direction::South, Direction::East]
    }

    /// Iterate over all directions a bishop can take.
    pub fn iter_bishop() -> (all: Vec<Direction>)
        ensures
            all@ == Direction::BISHOP_DIRECTIONS@,
    {
        vec![
            Direction::NorthWest,
            Direction::SouthWest,
            Direction::SouthEast,
            Direction::NorthEast,
        ]
    }

    /// Iterate over all directions a queen or king can take.
    pub fn iter_royalty() -> (all: Vec<Direction>)
        ensures
            all@ == Direction::ROOK_DIRECTIONS@ + Direction::BISHOP_DIRECTIONS@,
    {
        vec![
            Direction::North,
            Direction::West,
            Direction::South,
            Direction::East,
            Direction::NorthWest,
            Direction::SouthWest,
            Direction::SouthEast,
            Direction::NorthEast,
        ]
    }

    /// Iterate over all directions a knight can take.
    pub fn iter_knight() -> (all: Vec<Direction>)
        ensures
            all@ == Direction::KNIGHT_DIRECTIONS@,
    {
        vec![
            Direction::NorthNorthWest,
            Direction::NorthWestWest,
            Direction::SouthWestWest,
            Direction::SouthSouthWest,
            Direction::SouthSouthEast,
            Direction::SouthEastEast,
            Direction::NorthEastEast,
            Direction::NorthNorthEast,
        ]
    }

    /// Move a [Square] along the given [Direction], unless it would wrap at the end of the board
    pub fn move_square(self, square: Square) -> (moved: Option<Square>)
        ensures
            self.shifted(square.bit()) == 0 ==> moved.is_none(),
            self.shifted(square.bit()) != 0 ==> moved == Some(
                Square::spec_from_index(self.shifted(square.bit()).trailing_zeros() as usize),
            ),
            moved matches Some(to) ==> self.shifted(square.bit()) == to.bit() && to.spec_index()
                == square.spec_index() + 8 * self.file_step() + self.rank_step(),
    {
        let res = self.move_board(square.into_bitboard());
        let moved = res.into_iter().next();
        proof {
            lemma_shifted_single(self, square.spec_index() as int);
            let to = square.spec_index() + 8 * self.file_step() + self.rank_step();
            if res.0 != 0 {
                lemma_single_bit_popcount(to as u64);
                lemma_single_bit(to as u64);
            }
        }
        moved
    }

    /// Move every piece on a board along the given direction. Do not wrap around the board.
    pub fn move_board(self, board: Bitboard) -> (moved: Bitboard)
        ensures
            moved.0 == self.shifted(board.0),
    {
        match self {
            Direction::North => (board - Rank::Eighth.into_bitboard()) << 1,
            Direction::West => board >> 8,
            Direction::South => (board - Rank::First.into_bitboard()) >> 1,
            Direction::East => board << 8,
            Direction::NorthWest => (board - Rank::Eighth.into_bitboard()) >> 7,
            Direction::SouthWest => (board - Rank::First.into_bitboard()) >> 9,
            Direction::SouthEast => (board - Rank::First.into_bitboard()) << 7,
            Direction::NorthEast => (board - Rank::Eighth.into_bitboard()) << 9,
            Direction::NorthNorthWest => {
                (board - Rank::Eighth.into_bitboard() - Rank::Seventh.into_bitboard()) >> 6
            },
            Direction::NorthWestWest => (board - Rank::Eighth.into_bitboard()) >> 15,
            Direction::SouthWestWest => (board - Rank::First.into_bitboard()) >> 17,
            Direction::SouthSouthWest => {
                (board - Rank::First.into_bitboard() - Rank::Second.into_bitboard()) >> 10
            },
            Direction::SouthSouthEast => {
                (board - Rank::First.into_bitboard() - Rank::Second.into_bitboard()) << 6
            },
            Direction::SouthEastEast => (board - Rank::First.into_bitboard()) << 15,
            Direction::NorthEastEast => (board - Rank::Eighth.into_bitboard()) << 17,
            Direction::NorthNorthEast => {
                (board - Rank::Eighth.into_bitboard() - Rank::Seventh.into_bitboard()) << 10
            },
        }
    }

    /// Slide a board along the given [Direction], i.e: return all successive applications of
    /// [Direction::move_square] until no new squares can be reached.
    /// It does not make sense to use this method with knight-only directions.
    pub fn slide_square(self, square: Square) -> (reached: Bitboard)
        requires
            self.is_rook() || self.is_bishop(),
        ensures
            reached.0 == self.slid(square.bit(), 0),
    {
        self.slide_board(square.into_bitboard())
    }

    /// Slide a board along the given [Direction], i.e: return all successive applications of
    /// [Direction::move_board] until no new squares can be reached.
    /// It does not make sense to use this method with knight-only directions.
    pub fn slide_board(self, board: Bitboard) -> (reached: Bitboard)
        requires
            self.is_rook() || self.is_bishop(),
        ensures
            reached.0 == self.slid(board.0, 0),
    {
        self.slide_board_with_blockers(board, Bitboard::empty())
    }

    /// Slide a board along the given [Direction], i.e: return all successive applications of
    /// [Direction::move_board] until no new squares can be reached.
    /// Take into account the `blockers` [Bitboard]: a combination of all pieces on the board which
    /// cannot be slid over. The slide is over once a square that is part of `blockers` is reached.
    /// It does not make sense to use this method with knight-only directions.
    pub fn slide_board_with_blockers(self, board: Bitboard, blockers: Bitboard) -> (reached:
        Bitboard)
        requires
            self.is_rook() || self.is_bishop(),
        ensures
            reached.0 == self.slid(board.0, blockers.0),
    {
        let mut board = board;
        let mut res = Bitboard::empty();
        let ghost mut steps: nat = 0;
        let ghost start = board.0;
        proof {
            lemma_bits_of_zero();
        }
        while !board.is_empty()
            invariant_except_break
                self.slid(start, blockers.0) == res.0 | self.ray(
                    board.0,
                    blockers.0,
                    (8 - steps) as nat,
                ),
            invariant
                self.is_rook() || self.is_bishop(),
                steps <= 8,
                forall|index: int| has_bit(board.0, index) ==> self.progress(index) >= steps,
                res.0 | 0 == res.0,
            ensures
                self.slid(start, blockers.0) == res.0,
            decreases 8 - steps,
        {
            let ghost before = board.0;
            let ghost reached = res.0;
            proof {
                lemma_trailing_zeros(before);
                assert(has_bit(before, before.trailing_zeros() as int));
                assert forall|index: int| has_bit(self.shifted(before), index) implies self.progress(
                    index,
                ) >= steps + 1 by {
                    lemma_shift_moves_squares(self, before, index);
                    assert(has_bit(before, index - (8 * self.file_step() + self.rank_step())));
                }
            }
            board = self.move_board(board);
            res = res | board;
            proof {
                lemma_bits_of_zero();
            }
            if !(board & blockers).is_empty() {
                break ;
            }
            proof {
                lemma_xor_algebra();
                steps = steps + 1;
            }
        }
        res
    }

    /// How far a square lies from the edge that steps in this direction lead away from.
    pub open spec fn progress(self, index: int) -> int {
        if self.rank_step() > 0 {
            index % 8
        } else if self.rank_step() < 0 {
            7 - index % 8
        } else if self.file_step() > 0 {
            index / 8
        } else {
            7 - index / 8
        }
    }
}

/// Where each bit of a word goes by one step, direction by direction.
proof fn lemma_shifted_bits(bits: u64, index: u64)
    by (bit_vector)
    requires
        index < 64,
    ensures
        ((((bits & !RANK_8) << 1) >> index) & 1 == 1)
            <==> (index % 8 >= 1 && (bits >> ((index - 1) as u64)) & 1 == 1),
        (((bits >> 8) >> index) & 1 == 1)
            <==> (index / 8 < 7 && (bits >> ((index + 8) as u64)) & 1 == 1),
        ((((bits & !RANK_1) >> 1) >> index) & 1 == 1)
            <==> (index % 8 < 7 && (bits >> ((index + 1) as u64)) & 1 == 1),
        (((bits << 8) >> index) & 1 == 1)
            <==> (index / 8 >= 1 && (bits >> ((index - 8) as u64)) & 1 == 1),
        ((((bits & !RANK_8) >> 7) >> index) & 1 == 1)
            <==> (index % 8 >= 1 && index / 8 < 7 && (bits >> ((index + 7) as u64)) & 1 == 1),
        ((((bits & !RANK_1) >> 9) >> index) & 1 == 1)
            <==> (index % 8 < 7 && index / 8 < 7 && (bits >> ((index + 9) as u64)) & 1 == 1),
        ((((bits & !RANK_1) << 7) >> index) & 1 == 1)
            <==> (index % 8 < 7 && index / 8 >= 1 && (bits >> ((index - 7) as u64)) & 1 == 1),
        ((((bits & !RANK_8) << 9) >> index) & 1 == 1)
            <==> (index % 8 >= 1 && index / 8 >= 1 && (bits >> ((index - 9) as u64)) & 1 == 1),
        ((((bits & !RANK_8 & !RANK_7) >> 6) >> index) & 1 == 1)
            <==> (index % 8 >= 2 && index / 8 < 7 && (bits >> ((index + 6) as u64)) & 1 == 1),
        ((((bits & !RANK_8) >> 15) >> index) & 1 == 1)
            <==> (index % 8 >= 1 && index / 8 < 6 && (bits >> ((index + 15) as u64)) & 1 == 1),
        ((((bits & !RANK_1) >> 17) >> index) & 1 == 1)
            <==> (index % 8 < 7 && index / 8 < 6 && (bits >> ((index + 17) as u64)) & 1 == 1),
        ((((bits & !RANK_1 & !RANK_2) >> 10) >> index) & 1 == 1)
            <==> (index % 8 < 6 && index / 8 < 7 && (bits >> ((index + 10) as u64)) & 1 == 1),
        ((((bits & !RANK_1 & !RANK_2) << 6) >> index) & 1 == 1)
            <==> (index % 8 < 6 && index / 8 >= 1 && (bits >> ((index - 6) as u64)) & 1 == 1),
        ((((bits & !RANK_1) << 15) >> index) & 1 == 1)
            <==> (index % 8 < 7 && index / 8 >= 2 && (bits >> ((index - 15) as u64)) & 1 == 1),
        ((((bits & !RANK_8) << 17) >> index) & 1 == 1)
            <==> (index % 8 >= 1 && index / 8 >= 2 && (bits >> ((index - 17) as u64)) & 1 == 1),
        ((((bits & !RANK_8 & !RANK_7) << 10) >> index) & 1 == 1)
            <==> (index % 8 >= 2 && index / 8 >= 1 && (bits >> ((index - 10) as u64)) & 1 == 1),
{
}

/// A step never wraps round the board. A square is on the moved board exactly when the square
/// from which one step leads to it is on the board before, and that square is the one whose file
/// and rank lie back by the step of the direction: a piece that would leave the board by the step
/// is dropped, not carried to the far edge.
pub proof fn lemma_shift_moves_squares(direction: Direction, bits: u64, index: int)
    ensures
        has_bit(direction.shifted(bits), index) <==> {
            &&& 0 <= index < 64
            &&& 0 <= index / 8 - direction.file_step() < 8
            &&& 0 <= index % 8 - direction.rank_step() < 8
            &&& has_bit(bits, index - (8 * direction.file_step() + direction.rank_step()))
        },
{
    if 0 <= index < 64 {
        lemma_shifted_bits(bits, index as u64);
    }
}

/// One step from a single square leads to the square whose index lies further by the step of the
/// direction, or off the board.
pub proof fn lemma_shifted_single(direction: Direction, from: int)
    requires
        0 <= from < 64,
    ensures
        ({
            let to = from + 8 * direction.file_step() + direction.rank_step();
            let on_board = 0 <= from / 8 + direction.file_step() < 8 && 0 <= from % 8
                + direction.rank_step() < 8;
            direction.shifted(1u64 << (from as u64)) == if on_board {
                1u64 << (to as u64)
            } else {
                0
            }
        }),
{
    let bit = 1u64 << (from as u64);
    let moved = direction.shifted(bit);
    let to = from + 8 * direction.file_step() + direction.rank_step();
    lemma_single_bit(from as u64);
    assert forall|index: int| has_bit(moved, index) implies index == to by {
        lemma_shift_moves_squares(direction, bit, index);
    }
    lemma_shift_moves_squares(direction, bit, to);
    if moved != 0 {
        lemma_trailing_zeros(moved);
        assert(has_bit(moved, moved.trailing_zeros() as int));
        lemma_single_bit(to as u64);
        lemma_same_bits(moved, 1u64 << (to as u64));
    }
}

/// Two words with the same bits are the same word.
pub proof fn lemma_same_bits(a: u64, b: u64)
    requires
        forall|index: int| 0 <= index < 64 ==> (has_bit(a, index) <==> has_bit(b, index)),
    ensures
        a == b,
{
    if a ^ b != 0 {
        let differ = a ^ b;
        lemma_trailing_zeros(differ);
        let at = differ.trailing_zeros() as u64;
        assert(has_bit(differ, at as int));
        assert(((a ^ b) >> at) & 1 == 1 ==> ((a >> at) & 1 == 1) != ((b >> at) & 1 == 1))
            by (bit_vector)
            requires
                at < 64,
        ;
        assert(has_bit(a, at as int) != has_bit(b, at as int));
    } else {
        assert(a ^ b == 0 ==> a == b) by (bit_vector);
    }
}

/// Whether one step in a direction leads from one square to another.
pub open spec fn steps_to(direction: Direction, from: int, to: int) -> bool {
    &&& 0 <= from < 64
    &&& 0 <= from / 8 + direction.file_step() < 8
    &&& 0 <= from % 8 + direction.rank_step() < 8
    &&& to == from + 8 * direction.file_step() + direction.rank_step()
}

/// A step from a single square reaches the square that the step leads to, and a step back from
/// there leads to the first square again.
pub proof fn lemma_step_symmetric(direction: Direction, from: int, to: int)
    requires
        0 <= from < 64,
        0 <= to < 64,
    ensures
        has_bit(direction.shifted(1u64 << (from as u64)), to) <==> steps_to(direction, from, to),
        steps_to(direction, from, to) <==> steps_to(direction.opposite(), to, from),
{
    lemma_shifted_single(direction, from);
    lemma_single_bit(to as u64);
    let target = from + 8 * direction.file_step() + direction.rank_step();
    if steps_to(direction, from, target) {
        lemma_single_bit(target as u64);
    }
    lemma_has_bit_algebra(0, 0, 0, to);
}

/// The squares that a slide from a single square reaches: the square one step ahead, if it is
/// on the board, and if that square holds no blocker, the squares that the slide from there
/// reaches with one step less.
pub proof fn lemma_ray_from_square(
    direction: Direction,
    from: int,
    blockers: u64,
    steps: nat,
    index: int,
)
    requires
        0 <= from < 64,
    ensures
        ({
            let ahead = from + 8 * direction.file_step() + direction.rank_step();
            has_bit(direction.ray(1u64 << (from as u64), blockers, steps), index) <==> steps > 0
                && steps_to(direction, from, ahead) && (index == ahead || (!has_bit(
                blockers,
                ahead,
            ) && has_bit(
                direction.ray(1u64 << (ahead as u64), blockers, (steps - 1) as nat),
                index,
            )))
        }),
{
    let ahead = from + 8 * direction.file_step() + direction.rank_step();
    let bits = 1u64 << (from as u64);
    let next = direction.shifted(bits);
    lemma_bits_of_zero();
    lemma_single_bit(from as u64);
    lemma_shifted_single(direction, from);
    lemma_has_bit_algebra(0, 0, 0, index);
    if steps > 0 {
        if steps_to(direction, from, ahead) {
            let rest = direction.ray(next, blockers, (steps - 1) as nat);
            lemma_single_bit(ahead as u64);
            lemma_has_bit_algebra(blockers, 0, ahead, ahead);
            lemma_has_bit_algebra(next, rest, 0, index);
            if index != ahead {
                assert(!has_bit(next, index));
            } else {
                assert(has_bit(next, index));
            }
        } else {
            assert(next == 0);
            assert(direction.ray(0, blockers, (steps - 1) as nat) == 0);
        }
    }
}

/// A slide from a single square goes one step further past a square that it reaches and that
/// holds no blocker, if the board goes on there.
pub proof fn lemma_ray_goes_on(
    direction: Direction,
    from: int,
    over: int,
    blockers: u64,
    steps: nat,
)
    requires
        0 <= from < 64,
        0 <= over < 64,
        has_bit(direction.ray(1u64 << (from as u64), blockers, steps), over),
        !has_bit(blockers, over),
        steps_to(direction, over, over + 8 * direction.file_step() + direction.rank_step()),
    ensures
        has_bit(
            direction.ray(1u64 << (from as u64), blockers, steps + 1),
            over + 8 * direction.file_step() + direction.rank_step(),
        ),
    decreases steps,
{
    let step = 8 * direction.file_step() + direction.rank_step();
    let ahead = from + step;
    lemma_ray_from_square(direction, from, blockers, steps, over);
    lemma_ray_from_square(direction, from, blockers, steps + 1, over + step);
    if over == ahead {
        lemma_ray_from_square(direction, over, blockers, steps, over + step);
    } else {
        lemma_ray_goes_on(direction, ahead, over, blockers, (steps - 1) as nat);
    }
}

/// If a slide from one square reaches another, the slide back from there reaches the first.
pub proof fn lemma_ray_returns(direction: Direction, from: int, to: int, blockers: u64, steps: nat)
    requires
        0 <= from < 64,
        0 <= to < 64,
        has_bit(direction.ray(1u64 << (from as u64), blockers, steps), to),
    ensures
        has_bit(direction.opposite().ray(1u64 << (to as u64), blockers, steps), from),
    decreases steps,
{
    let step = 8 * direction.file_step() + direction.rank_step();
    let back = direction.opposite();
    let ahead = from + step;
    lemma_ray_from_square(direction, from, blockers, steps, to);
    lemma_step_symmetric(direction, from, ahead);
    if to == ahead {
        lemma_ray_from_square(back, to, blockers, steps, from);
    } else {
        lemma_ray_returns(direction, ahead, to, blockers, (steps - 1) as nat);
        lemma_ray_goes_on(back, to, ahead, blockers, (steps - 1) as nat);
    }
}

/// A slide from one square reaches another exactly when the slide back from there reaches the
/// first.
pub proof fn lemma_slide_symmetric(direction: Direction, from: int, to: int, blockers: u64)
    requires
        0 <= from < 64,
        0 <= to < 64,
    ensures
        has_bit(direction.slid(1u64 << (from as u64), blockers), to) <==> has_bit(
            direction.opposite().slid(1u64 << (to as u64), blockers),
            from,
        ),
{
    if has_bit(direction.slid(1u64 << (from as u64), blockers), to) {
        lemma_ray_returns(direction, from, to, blockers, 8);
    }
    if has_bit(direction.opposite().slid(1u64 << (to as u64), blockers), from) {
        lemma_ray_returns(direction.opposite(), to, from, blockers, 8);
    }
}

} // verus!
