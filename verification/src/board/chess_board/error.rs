use vstd::prelude::*;

verus! {

/// A singular type for all errors that could happen during [crate::board::ChessBoard::is_valid].
#[derive(Copy, Clone, Debug, PartialEq, Eq, PartialOrd, Ord, Hash, Structural)]
pub enum ValidationError {
    /// Too many pieces.
    TooManyPieces,
    /// Missing king.
    MissingKing,
    /// Pawns on the first/last rank.
    InvalidPawnPosition,
    /// Castling rights do not match up with the state of the board.
    InvalidCastlingRights,
    /// En-passant target square is not empty, behind an opponent's pawn, on the correct rank.
    InvalidEnPassant,
    /// The two kings are next to each other.
    NeighbouringKings,
    /// The opponent is currently in check.
    OpponentInCheck,
    /// The piece-specific boards are overlapping.
    OverlappingPieces,
    /// The color-specific boards are overlapping.
    OverlappingColors,
    /// The pre-computed combined occupancy boards does not match the other boards.
    ErroneousCombinedOccupancy,
    /// Half-move clock is higher than total number of plies.
    HalfMoveClockTooHigh,
    /// The total plie count does not match the current player.
    IncoherentPlieCount,
}

impl ValidationError {
    /// The text that describes the error.
    pub open spec fn spec_message(self) -> Seq<char> {
        match self {
            ValidationError::TooManyPieces => "Too many pieces"@,
            ValidationError::MissingKing => "Missing king"@,
            ValidationError::InvalidPawnPosition => "Pawns on the first/last rank"@,
            ValidationError::InvalidCastlingRights => {
                "Castling rights do not match up with the state of the board"@
            },
            ValidationError::InvalidEnPassant => {
                "En-passant target square is not empty, behind an opponent's pawn, on the correct rank"@
            },
            ValidationError::NeighbouringKings => "The two kings are next to each other"@,
            ValidationError::OpponentInCheck => "The opponent is currently in check"@,
            ValidationError::OverlappingPieces => "The piece-specific boards are overlapping"@,
            ValidationError::OverlappingColors => "The color-specific boards are overlapping"@,
            ValidationError::ErroneousCombinedOccupancy => {
                "The pre-computed combined occupancy boards does not match the other boards"@
            },
            ValidationError::HalfMoveClockTooHigh => {
                "Half-move clock is higher than total number of plies"@
            },
            ValidationError::IncoherentPlieCount => {
                "The total plie count does not match the current player"@
            },
        }
    }

    /// A description of the error.
    pub fn message(&self) -> (text: &'static str)
        ensures
            text@ == self.spec_message(),
    {
        match self {
            ValidationError::TooManyPieces => "Too many pieces",
            ValidationError::MissingKing => "Missing king",
            ValidationError::InvalidPawnPosition => "Pawns on the first/last rank",
            ValidationError::InvalidCastlingRights => {
                "Castling rights do not match up with the state of the board"
            },
            ValidationError::InvalidEnPassant => {
                "En-passant target square is not empty, behind an opponent's pawn, on the correct rank"
            },
            ValidationError::NeighbouringKings => "The two kings are next to each other",
            ValidationError::OpponentInCheck => "The opponent is currently in check",
            ValidationError::OverlappingPieces => "The piece-specific boards are overlapping",
            ValidationError::OverlappingColors => "The color-specific boards are overlapping",
            ValidationError::ErroneousCombinedOccupancy => {
                "The pre-computed combined occupancy boards does not match the other boards"
            },
            ValidationError::HalfMoveClockTooHigh => {
                "Half-move clock is higher than total number of plies"
            },
            ValidationError::IncoherentPlieCount => {
                "The total plie count does not match the current player"
            },
        }
    }
}

} // verus!
