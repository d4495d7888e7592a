use vstd::prelude::*;
use vstd::std_specs::convert::TryFromSpecImpl;
use vstd::std_specs::ops::{
    BitAndSpecImpl, BitOrSpecImpl, BitXorSpecImpl, NotSpecImpl, ShlSpecImpl, ShrSpecImpl,
    SubSpecImpl,
};

use crate::board::bitboard::error::IntoSquareError;
use crate::board::bitboard::iterator::BitboardIterator;
use crate::board::bitboard::superset::BitboardPowerSetIterator;
use crate::board::square::Square;
use crate::utils::bits::{
    lemma_bits_of_zero, lemma_popcount_clear_lowest, lemma_popcount_zero, lemma_single_bit_popcount,
    lemma_trailing_zeros,
};

pub mod error;
pub mod iterator;
pub mod superset;

verus! {

/// The squares of each rank, from the first rank to the eighth.
pub const RANK_MASKS: [u64; 8] = [
    0x0101_0101_0101_0101,
    0x0202_0202_0202_0202,
    0x0404_0404_0404_0404,
    0x0808_0808_0808_0808,
    0x1010_1010_1010_1010,
    0x2020_2020_2020_2020,
    0x4040_4040_4040_4040,
    0x8080_8080_8080_8080,
];

/// The squares of each file, from file A to file H.
pub const FILE_MASKS: [u64; 8] = [
    0x0000_0000_0000_00ff,
    0x0000_0000_0000_ff00,
    0x0000_0000_00ff_0000,
    0x0000_0000_ff00_0000,
    0x0000_00ff_0000_0000,
    0x0000_ff00_0000_0000,
    0x00ff_0000_0000_0000,
    0xff00_0000_0000_0000,
];

/// The squares of the first rank.
pub const RANK_1: u64 = 0x0101_0101_0101_0101;

/// The squares of the second rank.
pub const RANK_2: u64 = 0x0202_0202_0202_0202;

/// The squares of the seventh rank.
pub const RANK_7: u64 = 0x4040_4040_4040_4040;

/// The squares of the eighth rank.
pub const RANK_8: u64 = 0x8080_8080_8080_8080;

/// The squares of file A.
pub const FILE_A: u64 = 0x0000_0000_0000_00ff;

/// The squares of file H.
pub const FILE_H: u64 = 0xff00_0000_0000_0000;

/// The squares of the diagonal from A1 to H8.
pub const DIAGONAL_MASK: u64 = 0x8040_2010_0804_0201;

/// The squares of the diagonal from A8 to H1.
pub const ANTI_DIAGONAL_MASK: u64 = 0x0102_0408_1020_4080;

/// The number of bits set in a machine word.
pub open spec fn popcount(bits: u64) -> nat
    decreases bits,
{
    if bits == 0 {
        0
    } else {
        (bits % 2) as nat + popcount(bits / 2)
    }
}

/// Whether the bit at `index` is set in `bits`.
pub open spec fn has_bit(bits: u64, index: int) -> bool {
    0 <= index < 64 && (bits >> (index as u64)) & 1 == 1
}

/// Taken on trust from the documentation of `u64::count_ones`, not proved here: it returns the
/// number of ones in the binary representation of its argument.
pub assume_specification[ u64::count_ones ](bits: u64) -> (count: u32)
    ensures
        count == popcount(bits),
;

/// Use a 64-bit number to represent a chessboard. Each bit is mapped from to a specific square, so
/// that index 0 -> A1, 1 -> A2, ..., 63 -> H8.
#[derive(Copy, Clone, Debug, PartialEq, Eq, PartialOrd, Ord, Hash, Structural)]
pub struct Bitboard(pub u64);

impl Bitboard {
    /// An empty bitboard.
    pub fn empty() -> (board: Bitboard)
        ensures
            board.0 == 0,
    {
        Bitboard(0)
    }

    /// A full bitboard.
    pub fn all() -> (board: Bitboard)
        ensures
            board.0 == u64::MAX,
    {
        Bitboard(u64::MAX)
    }

    /// The diagonal from A1 to H8.
    pub fn diagonal() -> (board: Bitboard)
        ensures
            board.0 == DIAGONAL_MASK,
    {
        Bitboard(DIAGONAL_MASK)
    }

    /// The diagonal from A8 to H1.
    pub fn anti_diagonal() -> (board: Bitboard)
        ensures
            board.0 == ANTI_DIAGONAL_MASK,
    {
        Bitboard(ANTI_DIAGONAL_MASK)
    }

    /// Whether a square belongs to the board.
    pub open spec fn contains(self, square: Square) -> bool {
        has_bit(self.0, square.spec_index() as int)
    }

    /// Whether every square of this board belongs to `other`.
    pub open spec fn subset_of(self, other: Bitboard) -> bool {
        self.0 & !other.0 == 0
    }

    /// Count the number of pieces in the [Bitboard].
    pub fn count(self) -> (count: u32)
        ensures
            count == popcount(self.0),
    {
        self.0.count_ones()
    }

    /// Return true if there are no pieces in the [Bitboard], otherwise false.
    pub fn is_empty(self) -> (empty: bool)
        ensures
            empty == (self.0 == 0),
            empty == (popcount(self.0) == 0),
    {
        proof {
            lemma_popcount_zero(self.0);
        }
        self.0 == 0
    }

    /// Return true if there are more than piece in the [Bitboard]. This is faster than testing
    /// `board.count() > 1`.
    pub fn has_more_than_one(self) -> (more: bool)
        ensures
            more == (popcount(self.0) > 1),
    {
        proof {
            if self.0 != 0 {
                lemma_popcount_clear_lowest(self.0);
                lemma_popcount_zero(self.0 & ((self.0 - 1) as u64));
            } else {
                lemma_bits_of_zero();
            }
        }
        (self.0 & (self.0.wrapping_sub(1))) != 0
    }

    /// Iterate over the squares of the board, from the lowest index up.
    pub fn into_iter(self) -> (squares: BitboardIterator)
        ensures
            squares.0 == self,
    {
        BitboardIterator::new(self)
    }

    /// Iterate over the power-set of a given [Bitboard], yielding each possible sub-set of
    /// [Square] that belong to the [Bitboard]. In other words, generate all set of [Square] that
    /// contain all, some, or none of the [Square] that are in the given [Bitboard].
    /// If given an empty [Bitboard], yields the empty [Bitboard] back.
    pub fn iter_power_set(self) -> (subsets: BitboardPowerSetIterator)
        ensures
            subsets == (BitboardPowerSetIterator { board: self, subset: Bitboard(0), done: false }),
            subsets.wf(),
    {
        BitboardPowerSetIterator::new(self)
    }

    /// The square of a board of one square, and the error for any other board.
    pub open spec fn spec_try_into(self) -> Result<Square, IntoSquareError> {
        if popcount(self.0) == 1 {
            Ok(Square::spec_from_index(self.0.trailing_zeros() as usize))
        } else if popcount(self.0) == 0 {
            Err(IntoSquareError::EmptyBoard)
        } else {
            Err(IntoSquareError::TooManySquares)
        }
    }
}

/// If the given [Bitboard] is a singleton piece on a board, return the [Square] that it is
/// occupying. Otherwise say whether the board has no square or too many.
impl TryFrom<Bitboard> for Square {
    type Error = IntoSquareError;

    fn try_from(board: Bitboard) -> (square: Result<Square, IntoSquareError>) {
        let index = match board.count() {
            1 => board.0.trailing_zeros() as usize,
            0 => return Err(IntoSquareError::EmptyBoard),
            _ => return Err(IntoSquareError::TooManySquares),
        };
        proof {
            lemma_trailing_zeros(board.0);
        }
        Ok(Square::from_index(index))
    }
}

impl TryFromSpecImpl<Bitboard> for Square {
    open spec fn obeys_try_from_spec() -> bool {
        true
    }

    open spec fn try_from_spec(board: Bitboard) -> Result<Square, IntoSquareError> {
        board.spec_try_into()
    }
}

/// A board names a square exactly when it is that square's singleton board.
pub proof fn lemma_try_into_square(board: Bitboard, square: Square)
    ensures
        board.spec_try_into() == Ok::<Square, IntoSquareError>(square) <==> board.0 == square.bit(),
        board.spec_try_into() == Err::<Square, IntoSquareError>(IntoSquareError::EmptyBoard) <==> board.0
            == 0,
{
    lemma_popcount_zero(board.0);
    lemma_single_bit_popcount(square.spec_index() as u64);
    if board.0 != 0 {
        lemma_trailing_zeros(board.0);
    }
}

impl View for Bitboard {
    type V = Set<Square>;

    /// The squares of the board.
    open spec fn view(&self) -> Set<Square> {
        Set::new(|square: Square| self.contains(square))
    }
}

impl Default for Bitboard {
    fn default() -> (board: Bitboard)
        ensures
            board.0 == 0,
    {
        Bitboard(0)
    }
}

/// Treat bitboard as a set of squares, shift each square's index left by the amount given.
impl core::ops::Shl<usize> for Bitboard {
    type Output = Bitboard;

    fn shl(self, rhs: usize) -> (board: Bitboard) {
        Bitboard(self.0 << (rhs as u64))
    }
}

impl ShlSpecImpl<usize> for Bitboard {
    open spec fn obeys_shl_spec() -> bool {
        true
    }

    open spec fn shl_req(self, rhs: usize) -> bool {
        rhs < 64
    }

    open spec fn shl_spec(self, rhs: usize) -> Bitboard {
        Bitboard(self.0 << (rhs as u64))
    }
}

/// Treat bitboard as a set of squares, shift each square's index right by the amount given.
impl core::ops::Shr<usize> for Bitboard {
    type Output = Bitboard;

    fn shr(self, rhs: usize) -> (board: Bitboard) {
        Bitboard(self.0 >> (rhs as u64))
    }
}

impl ShrSpecImpl<usize> for Bitboard {
    open spec fn obeys_shr_spec() -> bool {
        true
    }

    open spec fn shr_req(self, rhs: usize) -> bool {
        rhs < 64
    }

    open spec fn shr_spec(self, rhs: usize) -> Bitboard {
        Bitboard(self.0 >> (rhs as u64))
    }
}

/// Treat bitboard as a set of squares, shift each square's index left by the amount given.
impl core::ops::ShlAssign<usize> for Bitboard {
    fn shl_assign(&mut self, rhs: usize)
        requires
            rhs < 64,
        ensures
            final(self).0 == old(self).0 << (rhs as u64),
    {
        self.0 = self.0 << (rhs as u64);
    }
}

/// Treat bitboard as a set of squares, shift each square's index right by the amount given.
impl core::ops::ShrAssign<usize> for Bitboard {
    fn shr_assign(&mut self, rhs: usize)
        requires
            rhs < 64,
        ensures
            final(self).0 == old(self).0 >> (rhs as u64),
    {
        self.0 = self.0 >> (rhs as u64);
    }
}

/// Treat bitboard as a set of squares, and invert the set.
impl core::ops::Not for Bitboard {
    type Output = Bitboard;

    fn not(self) -> (board: Bitboard) {
        Bitboard(!self.0)
    }
}

impl NotSpecImpl for Bitboard {
    open spec fn obeys_not_spec() -> bool {
        true
    }

    open spec fn not_req(self) -> bool {
        true
    }

    open spec fn not_spec(self) -> Bitboard {
        Bitboard(!self.0)
    }
}

/// Treat each bitboard as a set of squares, keep squares that are in either set.
impl core::ops::BitOr<Bitboard> for Bitboard {
    type Output = Bitboard;

    fn bitor(self, rhs: Bitboard) -> (board: Bitboard) {
        Bitboard(self.0 | rhs.0)
    }
}

impl BitOrSpecImpl<Bitboard> for Bitboard {
    open spec fn obeys_bitor_spec() -> bool {
        true
    }

    open spec fn bitor_req(self, rhs: Bitboard) -> bool {
        true
    }

    open spec fn bitor_spec(self, rhs: Bitboard) -> Bitboard {
        Bitboard(self.0 | rhs.0)
    }
}

/// Treat the [Square] as a singleton bitboard, and apply the operator.
impl core::ops::BitOr<Square> for Bitboard {
    type Output = Bitboard;

    fn bitor(self, rhs: Square) -> (board: Bitboard) {
        Bitboard(self.0 | rhs.into_bitboard().0)
    }
}

impl BitOrSpecImpl<Square> for Bitboard {
    open spec fn obeys_bitor_spec() -> bool {
        true
    }

    open spec fn bitor_req(self, rhs: Square) -> bool {
        true
    }

    open spec fn bitor_spec(self, rhs: Square) -> Bitboard {
        Bitboard(self.0 | rhs.bit())
    }
}

/// Treat each bitboard as a set of squares, keep squares that are in either set.
impl core::ops::BitOrAssign<Bitboard> for Bitboard {
    fn bitor_assign(&mut self, rhs: Bitboard)
        ensures
            final(self).0 == old(self).0 | rhs.0,
    {
        self.0 = self.0 | rhs.0;
    }
}

/// Treat the [Square] as a singleton bitboard, and apply the operator.
impl core::ops::BitOrAssign<Square> for Bitboard {
    fn bitor_assign(&mut self, rhs: Square)
        ensures
            final(self).0 == old(self).0 | rhs.bit(),
    {
        self.0 = self.0 | rhs.into_bitboard().0;
    }
}

/// Treat each bitboard as a set of squares, keep squares that are in both sets.
impl core::ops::BitAnd<Bitboard> for Bitboard {
    type Output = Bitboard;

    fn bitand(self, rhs: Bitboard) -> (board: Bitboard) {
        Bitboard(self.0 & rhs.0)
    }
}

impl BitAndSpecImpl<Bitboard> for Bitboard {
    open spec fn obeys_bitand_spec() -> bool {
        true
    }

    open spec fn bitand_req(self, rhs: Bitboard) -> bool {
        true
    }

    open spec fn bitand_spec(self, rhs: Bitboard) -> Bitboard {
        Bitboard(self.0 & rhs.0)
    }
}

/// Treat the [Square] as a singleton bitboard, and apply the operator.
impl core::ops::BitAnd<Square> for Bitboard {
    type Output = Bitboard;

    fn bitand(self, rhs: Square) -> (board: Bitboard) {
        Bitboard(self.0 & rhs.into_bitboard().0)
    }
}

impl BitAndSpecImpl<Square> for Bitboard {
    open spec fn obeys_bitand_spec() -> bool {
        true
    }

    open spec fn bitand_req(self, rhs: Square) -> bool {
        true
    }

    open spec fn bitand_spec(self, rhs: Square) -> Bitboard {
        Bitboard(self.0 & rhs.bit())
    }
}

/// Treat each bitboard as a set of squares, keep squares that are in both sets.
impl core::ops::BitAndAssign<Bitboard> for Bitboard {
    fn bitand_assign(&mut self, rhs: Bitboard)
        ensures
            final(self).0 == old(self).0 & rhs.0,
    {
        self.0 = self.0 & rhs.0;
    }
}

/// Treat the [Square] as a singleton bitboard, and apply the operator.
impl core::ops::BitAndAssign<Square> for Bitboard {
    fn bitand_assign(&mut self, rhs: Square)
        ensures
            final(self).0 == old(self).0 & rhs.bit(),
    {
        self.0 = self.0 & rhs.into_bitboard().0;
    }
}

/// Treat each bitboard as a set of squares, keep squares that are in exactly one of the sets.
impl core::ops::BitXor<Bitboard> for Bitboard {
    type Output = Bitboard;

    fn bitxor(self, rhs: Bitboard) -> (board: Bitboard) {
        Bitboard(self.0 ^ rhs.0)
    }
}

impl BitXorSpecImpl<Bitboard> for Bitboard {
    open spec fn obeys_bitxor_spec() -> bool {
        true
    }

    open spec fn bitxor_req(self, rhs: Bitboard) -> bool {
        true
    }

    open spec fn bitxor_spec(self, rhs: Bitboard) -> Bitboard {
        Bitboard(self.0 ^ rhs.0)
    }
}

/// Treat the [Square] as a singleton bitboard, and apply the operator.
impl core::ops::BitXor<Square> for Bitboard {
    type Output = Bitboard;

    fn bitxor(self, rhs: Square) -> (board: Bitboard) {
        Bitboard(self.0 ^ rhs.into_bitboard().0)
    }
}

impl BitXorSpecImpl<Square> for Bitboard {
    open spec fn obeys_bitxor_spec() -> bool {
        true
    }

    open spec fn bitxor_req(self, rhs: Square) -> bool {
        true
    }

    open spec fn bitxor_spec(self, rhs: Square) -> Bitboard {
        Bitboard(self.0 ^ rhs.bit())
    }
}

/// Treat each bitboard as a set of squares, keep squares that are in exactly one of the sets.
impl core::ops::BitXorAssign<Bitboard> for Bitboard {
    fn bitxor_assign(&mut self, rhs: Bitboard)
        ensures
            final(self).0 == old(self).0 ^ rhs.0,
    {
        self.0 = self.0 ^ rhs.0;
    }
}

/// Treat the [Square] as a singleton bitboard, and apply the operator.
impl core::ops::BitXorAssign<Square> for Bitboard {
    fn bitxor_assign(&mut self, rhs: Square)
        ensures
            final(self).0 == old(self).0 ^ rhs.bit(),
    {
        self.0 = self.0 ^ rhs.into_bitboard().0;
    }
}

/// Treat each bitboard as a set of squares, and subtract one set from the other.
impl core::ops::Sub<Bitboard> for Bitboard {
    type Output = Bitboard;

    fn sub(self, rhs: Bitboard) -> (board: Bitboard) {
        Bitboard(self.0 & !rhs.0)
    }
}

impl SubSpecImpl<Bitboard> for Bitboard {
    open spec fn obeys_sub_spec() -> bool {
        true
    }

    open spec fn sub_req(self, rhs: Bitboard) -> bool {
        true
    }

    open spec fn sub_spec(self, rhs: Bitboard) -> Bitboard {
        Bitboard(self.0 & !rhs.0)
    }
}

/// Treat the [Square] as a singleton bitboard, and apply the operator.
impl core::ops::Sub<Square> for Bitboard {
    type Output = Bitboard;

    fn sub(self, rhs: Square) -> (board: Bitboard) {
        Bitboard(self.0 & !rhs.into_bitboard().0)
    }
}

impl SubSpecImpl<Square> for Bitboard {
    open spec fn obeys_sub_spec() -> bool {
        true
    }

    open spec fn sub_req(self, rhs: Square) -> bool {
        true
    }

    open spec fn sub_spec(self, rhs: Square) -> Bitboard {
        Bitboard(self.0 & !rhs.bit())
    }
}

/// Treat each bitboard as a set of squares, and subtract one set from the other.
impl core::ops::SubAssign<Bitboard> for Bitboard {
    fn sub_assign(&mut self, rhs: Bitboard)
        ensures
            final(self).0 == old(self).0 & !rhs.0,
    {
        self.0 = self.0 & !rhs.0;
    }
}

/// Treat the [Square] as a singleton bitboard, and apply the operator.
impl core::ops::SubAssign<Square> for Bitboard {
    fn sub_assign(&mut self, rhs: Square)
        ensures
            final(self).0 == old(self).0 & !rhs.bit(),
    {
        self.0 = self.0 & !rhs.into_bitboard().0;
    }
}

} // verus!
