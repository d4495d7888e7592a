use vstd::prelude::*;

use crate::board::bitboard::{has_bit, popcount, Bitboard};
use crate::board::square::{lemma_square_index_round_trip, Square};
use crate::utils::bits::{
    bits_from, lemma_bits_from, lemma_popcount_clear_lowest, lemma_popcount_zero,
    lemma_trailing_zeros,
};

verus! {

/// Walks the squares of a [Bitboard] from the lowest index up. It holds the squares still to
/// come.
pub struct BitboardIterator(pub Bitboard);

impl BitboardIterator {
    /// The iterator that hands out the squares of a board.
    pub fn new(board: Bitboard) -> (squares: BitboardIterator)
        ensures
            squares.0 == board,
    {
        BitboardIterator(board)
    }

    /// The next square: the one of lowest index still to come, which then leaves the iterator.
    /// `None`, and nothing changes, once no square is left.
    pub fn next(&mut self) -> (square: Option<Square>)
        ensures
            old(self).0.0 == 0 ==> square.is_none() && *final(self) == *old(self),
            old(self).0.0 != 0 ==> square == Some(
                Square::spec_from_index(old(self).0.0.trailing_zeros() as usize),
            ) && final(self).0.0 == old(self).0.0 & ((old(self).0.0 - 1) as u64),
            square matches Some(s) ==> final(self).0.0 == old(self).0.0 ^ s.bit(),
    {
        let bits = self.0.0;
        if bits == 0 {
            return None;
        }
        proof {
            lemma_trailing_zeros(bits);
        }
        let square = Square::from_index(bits.trailing_zeros() as usize);
        self.0 = Bitboard(bits ^ square.into_bitboard().0);
        Some(square)
    }

    /// The number of squares still to come, as both bounds.
    pub fn size_hint(&self) -> (bounds: (usize, Option<usize>))
        ensures
            bounds.0 == popcount(self.0.0),
            bounds.1 == Some(bounds.0),
    {
        let size = self.0.count() as usize;
        (size, Some(size))
    }

    /// All squares still to come, in the order in which `next` hands them out: there are as many
    /// as the board has bits, their indices go strictly up, and they are the squares of the board.
    pub fn collect(self) -> (squares: Vec<Square>)
        ensures
            squares.len() == popcount(self.0.0),
            forall|i: int, j: int|
                0 <= i < j < squares.len() ==> (#[trigger] squares[i]).spec_index() < (
                #[trigger] squares[j]).spec_index(),
            forall|i: int| 0 <= i < squares.len() ==> self.0.contains(#[trigger] squares[i]),
            forall|index: int|
                has_bit(self.0.0, index) ==> exists|i: int|
                    0 <= i < squares.len() && (#[trigger] squares[i]).spec_index() == index,
            squares@.to_set() == self.0@,
    {
        let ghost board = self.0.0;
        let mut rest = self;
        let mut squares: Vec<Square> = Vec::new();
        let ghost mut from: int = 0;
        proof {
            lemma_bits_from(board, 0, 0, 0);
        }
        loop
            invariant
                0 <= from <= 64,
                rest.0.0 == board & bits_from(from),
                squares.len() + popcount(rest.0.0) == popcount(board),
                forall|i: int, j: int|
                    0 <= i < j < squares.len() ==> (#[trigger] squares[i]).spec_index() < (
                    #[trigger] squares[j]).spec_index(),
                forall|i: int|
                    0 <= i < squares.len() ==> has_bit(
                        board,
                        (#[trigger] squares[i]).spec_index() as int,
                    ) && squares[i].spec_index() < from,
                forall|index: int|
                    has_bit(board, index) && index < from ==> exists|i: int|
                        0 <= i < squares.len() && (#[trigger] squares[i]).spec_index() == index,
            ensures
                rest.0.0 == 0,
            decreases popcount(rest.0.0),
        {
            let ghost before = rest.0.0;
            let ghost done = squares@;
            match rest.next() {
                None => {
                    break ;
                },
                Some(square) => {
                    proof {
                        let lowest = before.trailing_zeros() as int;
                        lemma_trailing_zeros(before);
                        lemma_popcount_clear_lowest(before);
                        lemma_bits_from(board, from, from, lowest);
                        lemma_bits_from(board, from, lowest + 1, lowest);
                        assert forall|index: int|
                            has_bit(board, index) && index < lowest + 1 implies index < from
                            || index == lowest by {
                            lemma_bits_from(board, from, from, index);
                        }
                        from = lowest + 1;
                    }
                    squares.push(square);
                    proof {
                        assert forall|index: int| has_bit(board, index) && index < from implies exists|
                            i: int,
                        |
                            0 <= i < squares.len() && (#[trigger] squares[i]).spec_index()
                                == index by {
                            if index == from - 1 {
                                assert(squares[squares.len() - 1].spec_index() == index);
                            } else {
                                let i = choose|i: int|
                                    0 <= i < done.len() && (#[trigger] done[i]).spec_index()
                                        == index;
                                assert(squares[i].spec_index() == index);
                            }
                        }
                    }
                },
            }
        }
        proof {
            lemma_popcount_zero(rest.0.0);
            assert forall|index: int| has_bit(board, index) implies exists|i: int|
                0 <= i < squares.len() && (#[trigger] squares[i]).spec_index() == index by {
                lemma_bits_from(board, from, from, index);
            }
            assert forall|square: Square| self.0.contains(square) implies squares@.contains(
                square,
            ) by {
                let i = choose|i: int|
                    0 <= i < squares.len() && (#[trigger] squares[i]).spec_index()
                        == square.spec_index();
                lemma_square_index_round_trip(square, 0);
                lemma_square_index_round_trip(squares[i], 0);
            }
            assert(squares@.to_set() =~= self.0@);
        }
        squares
    }
}

} // verus!
