use vstd::prelude::*;

use crate::board::bitboard::{Bitboard, RANK_MASKS};

verus! {

/// A rank of the board: one of its eight rows, from white's back rank to black's.
#[derive(Copy, Clone, Debug, PartialEq, Eq, PartialOrd, Ord, Hash, Structural)]
pub enum Rank {
    First,
    Second,
    Third,
    Fourth,
    Fifth,
    Sixth,
    Seventh,
    Eighth,
}

impl Rank {
    /// The number of [Rank] variants.
    pub const NUM_VARIANTS: usize = 8;

    /// The position of the rank, counted from the first rank.
    pub open spec fn spec_index(self) -> usize {
        match self {
            Rank::First => 0,
            Rank::Second => 1,
            Rank::Third => 2,
            Rank::Fourth => 3,
            Rank::Fifth => 4,
            Rank::Sixth => 5,
            Rank::Seventh => 6,
            Rank::Eighth => 7,
        }
    }

    /// The rank at a given position; the first rank for any position past the board.
    pub open spec fn spec_from_index(index: int) -> Rank {
        if index == 1 {
            Rank::Second
        } else if index == 2 {
            Rank::Third
        } else if index == 3 {
            Rank::Fourth
        } else if index == 4 {
            Rank::Fifth
        } else if index == 5 {
            Rank::Sixth
        } else if index == 6 {
            Rank::Seventh
        } else if index == 7 {
            Rank::Eighth
        } else {
            Rank::First
        }
    }

    /// All files, in order.
    pub fn iter() -> (all: Vec<Rank>)
        ensures
            all.len() == 8,
            forall|i: int| 0 <= i < 8 ==> (#[trigger] all[i]).spec_index() == i,
    {
        vec![
            Rank::First,
            Rank::Second,
            Rank::Third,
            Rank::Fourth,
            Rank::Fifth,
            Rank::Sixth,
            Rank::Seventh,
            Rank::Eighth,
        ]
    }

    /// Convert from a rank index into a [Rank] type.
    pub fn from_index(index: usize) -> (rank: Rank)
        requires
            index < 8,
        ensures
            rank.spec_index() == index,
            rank == Rank::spec_from_index(index as int),
    {
        match index {
            0 => Rank::First,
            1 => Rank::Second,
            2 => Rank::Third,
            3 => Rank::Fourth,
            4 => Rank::Fifth,
            5 => Rank::Sixth,
            6 => Rank::Seventh,
            _ => Rank::Eighth,
        }
    }

    /// Return the index of a given [Rank].
    #[verifier::when_used_as_spec(spec_index)]
    pub fn index(self) -> (index: usize)
        ensures
            index == self.spec_index(),
            index < 8,
    {
        self as usize
    }

    /// Return the [Rank] one row down, as seen from white's perspective. Wraps around the board.
    pub fn down(self) -> (rank: Rank)
        ensures
            rank.spec_index() == (self.spec_index() + 7) % 8,
    {
        Rank::from_index((self.index() + 7) % 8)
    }

    /// Return the [Rank] one row up, as seen from white's perspective. Wraps around the board.
    pub fn up(self) -> (rank: Rank)
        ensures
            rank.spec_index() == (self.spec_index() + 1) % 8,
    {
        Rank::from_index((self.index() + 1) % 8)
    }

    /// Turn a [Rank] into a [Bitboard] of all squares in that rank.
    pub fn into_bitboard(self) -> (board: Bitboard)
        ensures
            board.0 == RANK_MASKS[self.spec_index() as int],
    {
        Bitboard(RANK_MASKS[self.index()])
    }
}

/// Converting an index to a rank and back gives the index again, and the other way round.
pub proof fn lemma_rank_index_round_trip(rank: Rank, index: int)
    ensures
        Rank::spec_from_index(rank.spec_index() as int) == rank,
        0 <= index < 8 ==> Rank::spec_from_index(index).spec_index() == index,
{
}

} // verus!
