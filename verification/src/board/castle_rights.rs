use vstd::prelude::*;

use crate::board::bitboard::Bitboard;
use crate::board::color::Color;
use crate::board::file::File;
use crate::board::square::Square;

verus! {

/// Current castle rights for a player.
#[derive(Copy, Clone, Debug, PartialEq, Eq, PartialOrd, Ord, Hash, Structural)]
pub enum CastleRights {
    /// No castling allowed.
    NoSide,
    /// King-side castling only.
    KingSide,
    /// Queen-side castling only.
    QueenSide,
    /// Either side allowed.
    BothSides,
}

impl CastleRights {
    /// The number of [CastleRights] variants.
    pub const NUM_VARIANTS: usize = 4;

    /// The rights allowed on each side of the board.
    pub open spec fn of_sides(king_side: bool, queen_side: bool) -> CastleRights {
        if king_side && queen_side {
            CastleRights::BothSides
        } else if king_side {
            CastleRights::KingSide
        } else if queen_side {
            CastleRights::QueenSide
        } else {
            CastleRights::NoSide
        }
    }

    /// Whether the player can castle king-side.
    pub open spec fn spec_has_king_side(self) -> bool {
        self == CastleRights::KingSide || self == CastleRights::BothSides
    }

    /// Whether the player can castle queen-side.
    pub open spec fn spec_has_queen_side(self) -> bool {
        self == CastleRights::QueenSide || self == CastleRights::BothSides
    }

    /// The index of the rights: 1 for the king side, plus 2 for the queen side.
    pub open spec fn spec_index(self) -> usize {
        match self {
            CastleRights::NoSide => 0,
            CastleRights::KingSide => 1,
            CastleRights::QueenSide => 2,
            CastleRights::BothSides => 3,
        }
    }

    /// The rights without those that `to_remove` holds.
    pub open spec fn spec_remove(self, to_remove: CastleRights) -> CastleRights {
        CastleRights::of_sides(
            self.spec_has_king_side() && !to_remove.spec_has_king_side(),
            self.spec_has_queen_side() && !to_remove.spec_has_queen_side(),
        )
    }

    /// The corners on which the rooks that these rights speak of must still stand.
    pub open spec fn spec_unmoved_rooks(self, color: Color) -> u64 {
        let king_side = Square::spec_new(File::H, color.spec_first_rank()).bit();
        let queen_side = Square::spec_new(File::A, color.spec_first_rank()).bit();
        match self {
            CastleRights::NoSide => 0,
            CastleRights::KingSide => king_side,
            CastleRights::QueenSide => queen_side,
            CastleRights::BothSides => king_side | queen_side,
        }
    }

    /// All castle rights, in the order of their indices.
    pub fn iter() -> (all: Vec<CastleRights>)
        ensures
            all.len() == 4,
            forall|i: int| 0 <= i < 4 ==> (#[trigger] all[i]).spec_index() == i,
    {
        vec![
            CastleRights::NoSide,
            CastleRights::KingSide,
            CastleRights::QueenSide,
            CastleRights::BothSides,
        ]
    }

    /// Convert from a castle rights index into a [CastleRights] type.
    pub fn from_index(index: usize) -> (rights: CastleRights)
        requires
            index < 4,
        ensures
            rights.spec_index() == index,
    {
        match index {
            0 => CastleRights::NoSide,
            1 => CastleRights::KingSide,
            2 => CastleRights::QueenSide,
            _ => CastleRights::BothSides,
        }
    }

    /// Return the index of a given [CastleRights].
    #[verifier::when_used_as_spec(spec_index)]
    pub fn index(self) -> (index: usize)
        ensures
            index == self.spec_index(),
            index < 4,
    {
        self as usize
    }

    /// Can the player castle king-side.
    #[verifier::when_used_as_spec(spec_has_king_side)]
    pub fn has_king_side(self) -> (allowed: bool)
        ensures
            allowed == self.spec_has_king_side(),
    {
        match self {
            CastleRights::KingSide | CastleRights::BothSides => true,
            _ => false,
        }
    }

    /// Can the player castle queen-side.
    #[verifier::when_used_as_spec(spec_has_queen_side)]
    pub fn has_queen_side(self) -> (allowed: bool)
        ensures
            allowed == self.spec_has_queen_side(),
    {
        match self {
            CastleRights::QueenSide | CastleRights::BothSides => true,
            _ => false,
        }
    }

    /// Add king-side castling rights.
    pub fn with_king_side(self) -> (rights: CastleRights)
        ensures
            rights == CastleRights::of_sides(true, self.spec_has_queen_side()),
    {
        match self {
            CastleRights::NoSide | CastleRights::KingSide => CastleRights::KingSide,
            _ => CastleRights::BothSides,
        }
    }

    /// Add queen-side castling rights.
    pub fn with_queen_side(self) -> (rights: CastleRights)
        ensures
            rights == CastleRights::of_sides(self.spec_has_king_side(), true),
    {
        match self {
            CastleRights::NoSide | CastleRights::QueenSide => CastleRights::QueenSide,
            _ => CastleRights::BothSides,
        }
    }

    /// Remove king-side castling rights.
    pub fn without_king_side(self) -> (rights: CastleRights)
        ensures
            rights == CastleRights::of_sides(false, self.spec_has_queen_side()),
            rights == self.spec_remove(CastleRights::KingSide),
    {
        self.remove(CastleRights::KingSide)
    }

    /// Remove queen-side castling rights.
    pub fn without_queen_side(self) -> (rights: CastleRights)
        ensures
            rights == CastleRights::of_sides(self.spec_has_king_side(), false),
            rights == self.spec_remove(CastleRights::QueenSide),
    {
        self.remove(CastleRights::QueenSide)
    }

    /// Remove some [CastleRights], and return the resulting [CastleRights].
    #[verifier::when_used_as_spec(spec_remove)]
    pub fn remove(self, to_remove: CastleRights) -> (rights: CastleRights)
        ensures
            rights == self.spec_remove(to_remove),
            rights.spec_index() == self.spec_index() & !to_remove.spec_index(),
    {
        proof {
            lemma_index_bits(self.spec_index(), to_remove.spec_index());
        }
        CastleRights::from_index(self.index() & !to_remove.index())
    }

    /// Which rooks have not been moved for a given [CastleRights] and [Color].
    pub fn unmoved_rooks(self, color: Color) -> (rooks: Bitboard)
        ensures
            rooks.0 == self.spec_unmoved_rooks(color),
    {
        let rank = color.first_rank();

        let king_side_square = Square::new(File::H, rank);
        let queen_side_square = Square::new(File::A, rank);

        match self {
            CastleRights::NoSide => Bitboard::empty(),
            CastleRights::KingSide => king_side_square.into_bitboard(),
            CastleRights::QueenSide => queen_side_square.into_bitboard(),
            CastleRights::BothSides => king_side_square | queen_side_square,
        }
    }
}

/// The index of the rights that are left when rights are removed, by the value of the indices.
proof fn lemma_index_bits(rights: usize, to_remove: usize)
    by (bit_vector)
    requires
        rights < 4,
        to_remove < 4,
    ensures
        rights & !to_remove == (if (rights == 1 || rights == 3) && (to_remove == 0 || to_remove
            == 2) {
            1usize
        } else {
            0usize
        }) + (if (rights == 2 || rights == 3) && (to_remove == 0 || to_remove == 1) {
            2usize
        } else {
            0usize
        }),
{
}

} // verus!
