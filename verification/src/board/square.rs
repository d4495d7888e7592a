use vstd::prelude::*;
use vstd::std_specs::ops::{
    BitAndSpecImpl, BitOrSpecImpl, BitXorSpecImpl, NotSpecImpl, ShlSpecImpl, ShrSpecImpl,
    SubSpecImpl,
};

use crate::board::bitboard::Bitboard;
use crate::board::file::File;
use crate::board::rank::Rank;

verus! {

/// A square of the board. The variants are declared file by file, in the order of the bits of a
/// [Bitboard].
#[derive(Copy, Clone, Debug, PartialEq, Eq, PartialOrd, Ord, Hash, Structural)]
pub enum Square {
    A1, A2, A3, A4, A5, A6, A7, A8,
    B1, B2, B3, B4, B5, B6, B7, B8,
    C1, C2, C3, C4, C5, C6, C7, C8,
    D1, D2, D3, D4, D5, D6, D7, D8,
    E1, E2, E3, E4, E5, E6, E7, E8,
    F1, F2, F3, F4, F5, F6, F7, F8,
    G1, G2, G3, G4, G5, G6, G7, G8,
    H1, H2, H3, H4, H5, H6, H7, H8,
}

impl Square {
    /// The number of [Square] variants.
    pub const NUM_VARIANTS: usize = 64;

    /// The position of the square: eight times the position of its file, plus that of its rank.
    pub open spec fn spec_index(self) -> usize {
        match self {
            Square::A1 => 0,
            Square::A2 => 1,
            Square::A3 => 2,
            Square::A4 => 3,
            Square::A5 => 4,
            Square::A6 => 5,
            Square::A7 => 6,
            Square::A8 => 7,
            Square::B1 => 8,
            Square::B2 => 9,
            Square::B3 => 10,
            Square::B4 => 11,
            Square::B5 => 12,
            Square::B6 => 13,
            Square::B7 => 14,
            Square::B8 => 15,
            Square::C1 => 16,
            Square::C2 => 17,
            Square::C3 => 18,
            Square::C4 => 19,
            Square::C5 => 20,
            Square::C6 => 21,
            Square::C7 => 22,
            Square::C8 => 23,
            Square::D1 => 24,
            Square::D2 => 25,
            Square::D3 => 26,
            Square::D4 => 27,
            Square::D5 => 28,
            Square::D6 => 29,
            Square::D7 => 30,
            Square::D8 => 31,
            Square::E1 => 32,
            Square::E2 => 33,
            Square::E3 => 34,
            Square::E4 => 35,
            Square::E5 => 36,
            Square::E6 => 37,
            Square::E7 => 38,
            Square::E8 => 39,
            Square::F1 => 40,
            Square::F2 => 41,
            Square::F3 => 42,
            Square::F4 => 43,
            Square::F5 => 44,
            Square::F6 => 45,
            Square::F7 => 46,
            Square::F8 => 47,
            Square::G1 => 48,
            Square::G2 => 49,
            Square::G3 => 50,
            Square::G4 => 51,
            Square::G5 => 52,
            Square::G6 => 53,
            Square::G7 => 54,
            Square::G8 => 55,
            Square::H1 => 56,
            Square::H2 => 57,
            Square::H3 => 58,
            Square::H4 => 59,
            Square::H5 => 60,
            Square::H6 => 61,
            Square::H7 => 62,
            Square::H8 => 63,
        }
    }

    /// The square at a given position; the last square for any position past the board.
    pub open spec fn spec_from_index(index: usize) -> Square {
        match index {
            0 => Square::A1,
            1 => Square::A2,
            2 => Square::A3,
            3 => Square::A4,
            4 => Square::A5,
            5 => Square::A6,
            6 => Square::A7,
            7 => Square::A8,
            8 => Square::B1,
            9 => Square::B2,
            10 => Square::B3,
            11 => Square::B4,
            12 => Square::B5,
            13 => Square::B6,
            14 => Square::B7,
            15 => Square::B8,
            16 => Square::C1,
            17 => Square::C2,
            18 => Square::C3,
            19 => Square::C4,
            20 => Square::C5,
            21 => Square::C6,
            22 => Square::C7,
            23 => Square::C8,
            24 => Square::D1,
            25 => Square::D2,
            26 => Square::D3,
            27 => Square::D4,
            28 => Square::D5,
            29 => Square::D6,
            30 => Square::D7,
            31 => Square::D8,
            32 => Square::E1,
            33 => Square::E2,
            34 => Square::E3,
            35 => Square::E4,
            36 => Square::E5,
            37 => Square::E6,
            38 => Square::E7,
            39 => Square::E8,
            40 => Square::F1,
            41 => Square::F2,
            42 => Square::F3,
            43 => Square::F4,
            44 => Square::F5,
            45 => Square::F6,
            46 => Square::F7,
            47 => Square::F8,
            48 => Square::G1,
            49 => Square::G2,
            50 => Square::G3,
            51 => Square::G4,
            52 => Square::G5,
            53 => Square::G6,
            54 => Square::G7,
            55 => Square::G8,
            56 => Square::H1,
            57 => Square::H2,
            58 => Square::H3,
            59 => Square::H4,
            60 => Square::H5,
            61 => Square::H6,
            62 => Square::H7,
            _ => Square::H8,
        }
    }

    /// The square on a given file and rank.
    pub open spec fn spec_new(file: File, rank: Rank) -> Square {
        Square::spec_from_index((file.spec_index() * 8 + rank.spec_index()) as usize)
    }

    /// The bitboard that holds this square alone, as a machine word.
    pub open spec fn bit(self) -> u64 {
        1u64 << (self.spec_index() as u64)
    }

    /// Construct a [Square] from a [File] and [Rank].
    pub fn new(file: File, rank: Rank) -> (square: Square)
        ensures
            square == Square::spec_new(file, rank),
            square.spec_index() == file.spec_index() * 8 + rank.spec_index(),
    {
        Square::from_index(file.index() * 8 + rank.index())
    }

    /// All squares, in the order of their positions.
    pub fn iter() -> (all: Vec<Square>)
        ensures
            all.len() == 64,
            forall|i: int| 0 <= i < 64 ==> (#[trigger] all[i]).spec_index() == i,
    {
        let mut all: Vec<Square> = Vec::new();
        let mut index: usize = 0;
        while index < 64
            invariant
                index <= 64,
                all.len() == index,
                forall|i: int| 0 <= i < index ==> (#[trigger] all[i]).spec_index() == i,
            decreases 64 - index,
        {
            all.push(Square::from_index(index));
            index += 1;
        }
        all
    }

    /// Convert from a square index into a [Square] type.
    pub fn from_index(index: usize) -> (square: Square)
        requires
            index < 64,
        ensures
            square.spec_index() == index,
            square == Square::spec_from_index(index),
    {
        match index {
            0 => Square::A1,
            1 => Square::A2,
            2 => Square::A3,
            3 => Square::A4,
            4 => Square::A5,
            5 => Square::A6,
            6 => Square::A7,
            7 => Square::A8,
            8 => Square::B1,
            9 => Square::B2,
            10 => Square::B3,
            11 => Square::B4,
            12 => Square::B5,
            13 => Square::B6,
            14 => Square::B7,
            15 => Square::B8,
            16 => Square::C1,
            17 => Square::C2,
            18 => Square::C3,
            19 => Square::C4,
            20 => Square::C5,
            21 => Square::C6,
            22 => Square::C7,
            23 => Square::C8,
            24 => Square::D1,
            25 => Square::D2,
            26 => Square::D3,
            27 => Square::D4,
            28 => Square::D5,
            29 => Square::D6,
            30 => Square::D7,
            31 => Square::D8,
            32 => Square::E1,
            33 => Square::E2,
            34 => Square::E3,
            35 => Square::E4,
            36 => Square::E5,
            37 => Square::E6,
            38 => Square::E7,
            39 => Square::E8,
            40 => Square::F1,
            41 => Square::F2,
            42 => Square::F3,
            43 => Square::F4,
            44 => Square::F5,
            45 => Square::F6,
            46 => Square::F7,
            47 => Square::F8,
            48 => Square::G1,
            49 => Square::G2,
            50 => Square::G3,
            51 => Square::G4,
            52 => Square::G5,
            53 => Square::G6,
            54 => Square::G7,
            55 => Square::G8,
            56 => Square::H1,
            57 => Square::H2,
            58 => Square::H3,
            59 => Square::H4,
            60 => Square::H5,
            61 => Square::H6,
            62 => Square::H7,
            _ => Square::H8,
        }
    }

    /// Return the index of a given [Square].
    #[verifier::when_used_as_spec(spec_index)]
    pub fn index(self) -> (index: usize)
        ensures
            index == self.spec_index(),
            index < 64,
    {
        self as usize
    }

    /// Return the index of the rank of this square (0 -> rank 1, ..., 7 -> rank 8).
    pub fn rank_index(self) -> (index: usize)
        ensures
            index == self.spec_index() % 8,
    {
        self.index() % 8
    }

    /// Return the index of the file of this square (0 -> file A, ..., 7 -> file H).
    pub fn file_index(self) -> (index: usize)
        ensures
            index == self.spec_index() / 8,
    {
        self.index() / 8
    }

    /// The rank this square stands on.
    pub open spec fn spec_rank(self) -> Rank {
        Rank::spec_from_index((self.spec_index() % 8) as int)
    }

    /// The file this square stands on.
    pub open spec fn spec_file(self) -> File {
        File::spec_from_index((self.spec_index() / 8) as int)
    }

    /// Return a [Rank] representing the rank of this square.
    #[verifier::when_used_as_spec(spec_rank)]
    pub fn rank(self) -> (rank: Rank)
        ensures
            rank == self.spec_rank(),
            rank.spec_index() == self.spec_index() % 8,
    {
        Rank::from_index(self.rank_index())
    }

    /// Return a [File] representing the file of this square.
    #[verifier::when_used_as_spec(spec_file)]
    pub fn file(self) -> (file: File)
        ensures
            file == self.spec_file(),
            file.spec_index() == self.spec_index() / 8,
    {
        File::from_index(self.file_index())
    }

    /// Turn a square into a singleton bitboard.
    pub fn into_bitboard(self) -> (board: Bitboard)
        ensures
            board.0 == self.bit(),
    {
        Bitboard(1u64 << (self.index() as u64))
    }
}

/// Converting a square to its index and back gives the square again, and the other way round; a
/// square is the one on its own file and rank.
pub proof fn lemma_square_index_round_trip(square: Square, index: usize)
    ensures
        Square::spec_from_index(square.spec_index()) == square,
        index < 64 ==> Square::spec_from_index(index).spec_index() == index,
        Square::spec_new(square.spec_file(), square.spec_rank()) == square,
{
}

/// Shift the square's index left by the amount given.
impl core::ops::Shl<usize> for Square {
    type Output = Square;

    fn shl(self, rhs: usize) -> (square: Square) {
        Square::from_index(self.index() + rhs)
    }
}

impl ShlSpecImpl<usize> for Square {
    open spec fn obeys_shl_spec() -> bool {
        true
    }

    open spec fn shl_req(self, rhs: usize) -> bool {
        self.spec_index() + rhs < 64
    }

    open spec fn shl_spec(self, rhs: usize) -> Square {
        Square::spec_from_index((self.spec_index() + rhs) as usize)
    }
}

/// Shift the square's index right by the amount given.
impl core::ops::Shr<usize> for Square {
    type Output = Square;

    fn shr(self, rhs: usize) -> (square: Square) {
        Square::from_index(self.index() - rhs)
    }
}

impl ShrSpecImpl<usize> for Square {
    open spec fn obeys_shr_spec() -> bool {
        true
    }

    open spec fn shr_req(self, rhs: usize) -> bool {
        rhs <= self.spec_index()
    }

    open spec fn shr_spec(self, rhs: usize) -> Square {
        Square::spec_from_index((self.spec_index() - rhs) as usize)
    }
}

/// Return a board containing all squares but the one given.
impl core::ops::Not for Square {
    type Output = Bitboard;

    fn not(self) -> (board: Bitboard) {
        Bitboard(!self.into_bitboard().0)
    }
}

impl NotSpecImpl for Square {
    open spec fn obeys_not_spec() -> bool {
        true
    }

    open spec fn not_req(self) -> bool {
        true
    }

    open spec fn not_spec(self) -> Bitboard {
        Bitboard(!self.bit())
    }
}

/// Treat the square as a singleton board, and apply the operator.
impl core::ops::BitOr<Square> for Square {
    type Output = Bitboard;

    fn bitor(self, rhs: Square) -> (board: Bitboard) {
        Bitboard(self.into_bitboard().0 | rhs.into_bitboard().0)
    }
}

impl BitOrSpecImpl<Square> for Square {
    open spec fn obeys_bitor_spec() -> bool {
        true
    }

    open spec fn bitor_req(self, rhs: Square) -> bool {
        true
    }

    open spec fn bitor_spec(self, rhs: Square) -> Bitboard {
        Bitboard(self.bit() | rhs.bit())
    }
}

/// Treat the square as a singleton board, and apply the operator.
impl core::ops::BitOr<Bitboard> for Square {
    type Output = Bitboard;

    fn bitor(self, rhs: Bitboard) -> (board: Bitboard) {
        Bitboard(self.into_bitboard().0 | rhs.0)
    }
}

impl BitOrSpecImpl<Bitboard> for Square {
    open spec fn obeys_bitor_spec() -> bool {
        true
    }

    open spec fn bitor_req(self, rhs: Bitboard) -> bool {
        true
    }

    open spec fn bitor_spec(self, rhs: Bitboard) -> Bitboard {
        Bitboard(self.bit() | rhs.0)
    }
}

/// Treat the square as a singleton board, and apply the operator.
impl core::ops::BitAnd<Bitboard> for Square {
    type Output = Bitboard;

    fn bitand(self, rhs: Bitboard) -> (board: Bitboard) {
        Bitboard(self.into_bitboard().0 & rhs.0)
    }
}

impl BitAndSpecImpl<Bitboard> for Square {
    open spec fn obeys_bitand_spec() -> bool {
        true
    }

    open spec fn bitand_req(self, rhs: Bitboard) -> bool {
        true
    }

    open spec fn bitand_spec(self, rhs: Bitboard) -> Bitboard {
        Bitboard(self.bit() & rhs.0)
    }
}

/// Treat the square as a singleton board, and apply the operator.
impl core::ops::BitXor<Bitboard> for Square {
    type Output = Bitboard;

    fn bitxor(self, rhs: Bitboard) -> (board: Bitboard) {
        Bitboard(self.into_bitboard().0 ^ rhs.0)
    }
}

impl BitXorSpecImpl<Bitboard> for Square {
    open spec fn obeys_bitxor_spec() -> bool {
        true
    }

    open spec fn bitxor_req(self, rhs: Bitboard) -> bool {
        true
    }

    open spec fn bitxor_spec(self, rhs: Bitboard) -> Bitboard {
        Bitboard(self.bit() ^ rhs.0)
    }
}

/// Treat the square as a singleton board, and apply the operator.
impl core::ops::Sub<Bitboard> for Square {
    type Output = Bitboard;

    fn sub(self, rhs: Bitboard) -> (board: Bitboard) {
        Bitboard(self.into_bitboard().0 & !rhs.0)
    }
}

impl SubSpecImpl<Bitboard> for Square {
    open spec fn obeys_sub_spec() -> bool {
        true
    }

    open spec fn sub_req(self, rhs: Bitboard) -> bool {
        true
    }

    open spec fn sub_spec(self, rhs: Bitboard) -> Bitboard {
        Bitboard(self.bit() & !rhs.0)
    }
}

} // verus!
