use vstd::prelude::*;

use crate::board::piece::Piece;
use crate::board::square::Square;

verus! {

/// A chess move, containing:
/// * Starting square.
/// * Destination square.
/// * Optional promotion type.
#[derive(Copy, Clone, Debug, PartialEq, Eq, PartialOrd, Ord, Hash, Structural)]
pub struct Move {
    pub start: Square,
    pub destination: Square,
    pub promotion: Option<Piece>,
}

impl Move {
    /// Construct a new move.
    pub fn new(start: Square, destination: Square, promotion: Option<Piece>) -> (chess_move: Move)
        ensures
            chess_move == (Move { start, destination, promotion }),
    {
        Move { start, destination, promotion }
    }

    /// Get the [Square] that this move starts from.
    pub fn start(self) -> (square: Square)
        ensures
            square == self.start,
    {
        self.start
    }

    /// Get the [Square] that this move ends on.
    pub fn destination(self) -> (square: Square)
        ensures
            square == self.destination,
    {
        self.destination
    }

    /// Get the [Piece] that this move promotes to, or `None` if there are no promotions.
    pub fn promotion(self) -> (piece: Option<Piece>)
        ensures
            piece == self.promotion,
    {
        self.promotion
    }
}

} // verus!
