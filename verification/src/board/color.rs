use vstd::prelude::*;
use vstd::std_specs::ops::NotSpecImpl;

use crate::board::direction::Direction;
use crate::board::rank::Rank;

verus! {

/// An enum representing the color of a player.
#[derive(Copy, Clone, Debug, PartialEq, Eq, PartialOrd, Ord, Hash, Structural)]
pub enum Color {
    White,
    Black,
}

impl Color {
    /// The number of [Color] variants.
    pub const NUM_VARIANTS: usize = 2;

    /// The index of the color: 0 for white, 1 for black.
    pub open spec fn spec_index(self) -> usize {
        match self {
            Color::White => 0,
            Color::Black => 1,
        }
    }

    /// The other color.
    pub open spec fn opponent(self) -> Color {
        match self {
            Color::White => Color::Black,
            Color::Black => Color::White,
        }
    }

    /// Both colors, in the order of their indices.
    pub fn iter() -> (all: Vec<Color>)
        ensures
            all@ == seq![Color::White, Color::Black],
    {
        vec![Color::White, Color::Black]
    }

    /// Convert from a color index into a [Color] type.
    pub fn from_index(index: usize) -> (color: Color)
        requires
            index < 2,
        ensures
            color.spec_index() == index,
    {
        match index {
            0 => Color::White,
            _ => Color::Black,
        }
    }

    /// Return the index of a given [Color].
    #[verifier::when_used_as_spec(spec_index)]
    pub fn index(self) -> (index: usize)
        ensures
            index == self.spec_index(),
            index < 2,
    {
        self as usize
    }

    /// The first [Rank] of the given [Color], where its pieces start.
    pub open spec fn spec_first_rank(self) -> Rank {
        match self {
            Color::White => Rank::First,
            Color::Black => Rank::Eighth,
        }
    }

    /// The second [Rank] of the given [Color], where its pawns start.
    pub open spec fn spec_second_rank(self) -> Rank {
        match self {
            Color::White => Rank::Second,
            Color::Black => Rank::Seventh,
        }
    }

    /// The third [Rank] of the given [Color], which its pawns reach by a single step from their
    /// start.
    pub open spec fn spec_third_rank(self) -> Rank {
        match self {
            Color::White => Rank::Third,
            Color::Black => Rank::Sixth,
        }
    }

    /// The fourth [Rank] of the given [Color], which its pawns reach by a double step.
    pub open spec fn spec_fourth_rank(self) -> Rank {
        match self {
            Color::White => Rank::Fourth,
            Color::Black => Rank::Fifth,
        }
    }

    /// The seventh [Rank] of the given [Color], the last before its pawns promote.
    pub open spec fn spec_seventh_rank(self) -> Rank {
        match self {
            Color::White => Rank::Seventh,
            Color::Black => Rank::Second,
        }
    }

    /// The way the pawns of this color advance.
    pub open spec fn spec_forward_direction(self) -> Direction {
        match self {
            Color::White => Direction::North,
            Color::Black => Direction::South,
        }
    }

    /// The way the pawns of the other color advance.
    pub open spec fn spec_backward_direction(self) -> Direction {
        self.opponent().spec_forward_direction()
    }

    /// Return the first [Rank] for pieces of the given [Color], where its pieces start.
    #[verifier::when_used_as_spec(spec_first_rank)]
    pub fn first_rank(self) -> (rank: Rank)
        ensures
            rank == self.spec_first_rank(),
    {
        match self {
            Color::White => Rank::First,
            Color::Black => Rank::Eighth,
        }
    }

    /// Return the second [Rank] for pieces of the given [Color], where its pawns start.
    #[verifier::when_used_as_spec(spec_second_rank)]
    pub fn second_rank(self) -> (rank: Rank)
        ensures
            rank == self.spec_second_rank(),
    {
        match self {
            Color::White => Rank::Second,
            Color::Black => Rank::Seventh,
        }
    }

    /// Return the third [Rank] for pieces of the given [Color], where its pawns move to after a
    /// one-square move on the start position.
    #[verifier::when_used_as_spec(spec_third_rank)]
    pub fn third_rank(self) -> (rank: Rank)
        ensures
            rank == self.spec_third_rank(),
    {
        match self {
            Color::White => Rank::Third,
            Color::Black => Rank::Sixth,
        }
    }

    /// Return the fourth [Rank] for pieces of the given [Color], where its pawns move to after a
    /// two-square move.
    #[verifier::when_used_as_spec(spec_fourth_rank)]
    pub fn fourth_rank(self) -> (rank: Rank)
        ensures
            rank == self.spec_fourth_rank(),
    {
        match self {
            Color::White => Rank::Fourth,
            Color::Black => Rank::Fifth,
        }
    }

    /// Return the seventh [Rank] for pieces of the given [Color], which is the rank before a pawn
    /// gets promoted.
    #[verifier::when_used_as_spec(spec_seventh_rank)]
    pub fn seventh_rank(self) -> (rank: Rank)
        ensures
            rank == self.spec_seventh_rank(),
    {
        match self {
            Color::White => Rank::Seventh,
            Color::Black => Rank::Second,
        }
    }

    /// Which way do pawns advance for this color.
    #[verifier::when_used_as_spec(spec_forward_direction)]
    pub fn forward_direction(self) -> (direction: Direction)
        ensures
            direction == self.spec_forward_direction(),
    {
        match self {
            Color::White => Direction::North,
            Color::Black => Direction::South,
        }
    }

    /// Which way do the opponent's pawns advance for this color.
    #[verifier::when_used_as_spec(spec_backward_direction)]
    pub fn backward_direction(self) -> (direction: Direction)
        ensures
            direction == self.spec_backward_direction(),
    {
        core::ops::Not::not(self).forward_direction()
    }
}

impl core::ops::Not for Color {
    type Output = Color;

    fn not(self) -> (color: Color) {
        match self {
            Color::White => Color::Black,
            Color::Black => Color::White,
        }
    }
}

impl NotSpecImpl for Color {
    open spec fn obeys_not_spec() -> bool {
        true
    }

    open spec fn not_req(self) -> bool {
        true
    }

    open spec fn not_spec(self) -> Color {
        self.opponent()
    }
}

} // verus!
