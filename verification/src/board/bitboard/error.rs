use vstd::prelude::*;

verus! {

/// Why a [crate::board::Bitboard] could not name a single square.
#[derive(Copy, Clone, Debug, PartialEq, Eq, PartialOrd, Ord, Hash, Structural)]
pub enum IntoSquareError {
    /// The board is empty.
    EmptyBoard,
    /// The board contains more than one square.
    TooManySquares,
}

impl IntoSquareError {
    /// The text that describes the error.
    pub open spec fn spec_message(self) -> Seq<char> {
        match self {
            IntoSquareError::EmptyBoard => "The board is empty"@,
            IntoSquareError::TooManySquares => "The board contains more than one square"@,
        }
    }

    /// A description of the error.
    pub fn message(&self) -> (text: &'static str)
        ensures
            text@ == self.spec_message(),
    {
        match self {
            IntoSquareError::EmptyBoard => "The board is empty",
            IntoSquareError::TooManySquares => "The board contains more than one square",
        }
    }
}

} // verus!
