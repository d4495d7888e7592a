use vstd::prelude::*;

use crate::board::bitboard::{Bitboard, FILE_MASKS};

verus! {

/// A file of the board: one of its eight columns, from the queen-side corner to the king-side one.
#[derive(Copy, Clone, Debug, PartialEq, Eq, PartialOrd, Ord, Hash, Structural)]
pub enum File {
    A,
    B,
    C,
    D,
    E,
    F,
    G,
    H,
}

impl File {
    /// The number of [File] variants.
    pub const NUM_VARIANTS: usize = 8;

    /// The position of the file, counted from file A.
    pub open spec fn spec_index(self) -> usize {
        match self {
            File::A => 0,
            File::B => 1,
            File::C => 2,
            File::D => 3,
            File::E => 4,
            File::F => 5,
            File::G => 6,
            File::H => 7,
        }
    }

    /// The file at a given position; file A for any position past the board.
    pub open spec fn spec_from_index(index: int) -> File {
        if index == 1 {
            File::B
        } else if index == 2 {
            File::C
        } else if index == 3 {
            File::D
        } else if index == 4 {
            File::E
        } else if index == 5 {
            File::F
        } else if index == 6 {
            File::G
        } else if index == 7 {
            File::H
        } else {
            File::A
        }
    }

    /// All files, in order.
    pub fn iter() -> (all: Vec<File>)
        ensures
            all.len() == 8,
            forall|i: int| 0 <= i < 8 ==> (#[trigger] all[i]).spec_index() == i,
    {
        vec![File::A, File::B, File::C, File::D, File::E, File::F, File::G, File::H]
    }

    /// Convert from a file index into a [File] type.
    pub fn from_index(index: usize) -> (file: File)
        requires
            index < 8,
        ensures
            file.spec_index() == index,
            file == File::spec_from_index(index as int),
    {
        match index {
            0 => File::A,
            1 => File::B,
            2 => File::C,
            3 => File::D,
            4 => File::E,
            5 => File::F,
            6 => File::G,
            _ => File::H,
        }
    }

    /// Convert from a file index into a [File] type, or `None` if the index is past the board.
    pub fn try_from_index(index: usize) -> (file: Option<File>)
        ensures
            index < 8 ==> file == Some(File::spec_from_index(index as int)),
            index >= 8 ==> file.is_none(),
    {
        if index < File::NUM_VARIANTS {
            Some(File::from_index(index))
        } else {
            None
        }
    }

    /// Return the index of a given [File].
    #[verifier::when_used_as_spec(spec_index)]
    pub fn index(self) -> (index: usize)
        ensures
            index == self.spec_index(),
            index < 8,
    {
        self as usize
    }

    /// Return the [File] to the left, as seen from white's perspective. Wraps around the board.
    pub fn left(self) -> (file: File)
        ensures
            file.spec_index() == (self.spec_index() + 7) % 8,
    {
        File::from_index((self.index() + 7) % 8)
    }

    /// Return the [File] to the right, as seen from white's perspective. Wraps around the board.
    pub fn right(self) -> (file: File)
        ensures
            file.spec_index() == (self.spec_index() + 1) % 8,
    {
        File::from_index((self.index() + 1) % 8)
    }

    /// Turn a [File] into a [Bitboard] of all squares in that file.
    pub fn into_bitboard(self) -> (board: Bitboard)
        ensures
            board.0 == FILE_MASKS[self.spec_index() as int],
    {
        Bitboard(FILE_MASKS[self.index()])
    }
}

/// Converting an index to a file and back gives the index again, and the other way round.
pub proof fn lemma_file_index_round_trip(file: File, index: int)
    ensures
        File::spec_from_index(file.spec_index() as int) == file,
        0 <= index < 8 ==> File::spec_from_index(index).spec_index() == index,
{
}

} // verus!
