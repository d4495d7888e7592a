use vstd::prelude::*;

verus! {

/// An enum representing the type of a piece.
#[derive(Copy, Clone, Debug, PartialEq, Eq, PartialOrd, Ord, Hash, Structural)]
pub enum Piece {
    King,
    Queen,
    Rook,
    Bishop,
    Knight,
    Pawn,
}

impl Piece {
    /// The number of [Piece] variants.
    pub const NUM_VARIANTS: usize = 6;

    /// The index of the piece type, which keys every table of pieces.
    pub open spec fn spec_index(self) -> usize {
        match self {
            Piece::King => 0,
            Piece::Queen => 1,
            Piece::Rook => 2,
            Piece::Bishop => 3,
            Piece::Knight => 4,
            Piece::Pawn => 5,
        }
    }

    /// The piece type of a given index; the pawn for any index past the last.
    pub open spec fn spec_from_index(index: int) -> Piece {
        if index == 0 {
            Piece::King
        } else if index == 1 {
            Piece::Queen
        } else if index == 2 {
            Piece::Rook
        } else if index == 3 {
            Piece::Bishop
        } else if index == 4 {
            Piece::Knight
        } else {
            Piece::Pawn
        }
    }

    /// All piece types, in the order of their indices.
    pub fn iter() -> (all: Vec<Piece>)
        ensures
            all.len() == 6,
            forall|i: int| 0 <= i < 6 ==> (#[trigger] all[i]).spec_index() == i,
    {
        vec![Piece::King, Piece::Queen, Piece::Rook, Piece::Bishop, Piece::Knight, Piece::Pawn]
    }

    /// Convert from a piece index into a [Piece] type.
    pub fn from_index(index: usize) -> (piece: Piece)
        requires
            index < 6,
        ensures
            piece.spec_index() == index,
            piece == Piece::spec_from_index(index as int),
    {
        match index {
            0 => Piece::King,
            1 => Piece::Queen,
            2 => Piece::Rook,
            3 => Piece::Bishop,
            4 => Piece::Knight,
            _ => Piece::Pawn,
        }
    }

    /// Convert from a piece index into a [Piece] type. Returns [None] if the index is out of
    /// bounds.
    pub fn try_from_index(index: usize) -> (piece: Option<Piece>)
        ensures
            index < 6 ==> piece == Some(Piece::spec_from_index(index as int)),
            index >= 6 ==> piece.is_none(),
    {
        if index < Piece::NUM_VARIANTS {
            Some(Piece::from_index(index))
        } else {
            None
        }
    }

    /// Return the index of a given [Piece].
    #[verifier::when_used_as_spec(spec_index)]
    pub fn index(self) -> (index: usize)
        ensures
            index == self.spec_index(),
            index < 6,
    {
        self as usize
    }
}

/// Converting a piece type to its index and back gives the piece type again, and the other way
/// round.
pub proof fn lemma_piece_index_round_trip(piece: Piece, index: int)
    ensures
        Piece::spec_from_index(piece.spec_index() as int) == piece,
        0 <= index < 6 ==> Piece::spec_from_index(index).spec_index() == index,
{
}

} // verus!
