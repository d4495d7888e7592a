use vstd::arithmetic::power2::{lemma_pow2_pos, lemma_pow2_unfold, pow2};
use vstd::prelude::*;

use crate::board::bitboard::{popcount, Bitboard};
use crate::utils::bits::{lemma_bits_of_zero, lemma_popcount_clear_lowest, lemma_popcount_zero};

verus! {

/// The subset of `board` that follows `subset` when the subsets are counted up: the bits of
/// `subset` are raised by one within `board`, and the full board is followed by the empty one.
pub open spec fn next_subset(board: u64, subset: u64) -> u64 {
    subset.wrapping_sub(board) & board
}

/// The subset of `board` that stands at place `rank` when the subsets are counted up from the
/// empty one: the bits of `rank`, from the lowest up, say which squares of the board it holds,
/// from the lowest up.
pub open spec fn nth_subset(board: u64, rank: nat) -> u64
    decreases board,
{
    if board == 0 {
        0
    } else {
        proof {
            lemma_bits_of_zero();
            lemma_lowest_square(board, 0);
        }
        let rest = nth_subset(board & ((board - 1) as u64), rank / 2);
        if rank % 2 == 1 {
            rest | (board & !((board - 1) as u64))
        } else {
            rest
        }
    }
}

/// A board that is not empty, split into its lowest square and the rest, and the subsets of the
/// rest counted up with and without the lowest square.
pub proof fn lemma_lowest_square(board: u64, subset: u64)
    by (bit_vector)
    requires
        board != 0,
        subset & !(board & ((board - 1) as u64)) == 0,
    ensures
        board & ((board - 1) as u64) < board,
        subset & !board == 0,
        subset != board,
        (subset | (board & !((board - 1) as u64))) & !board == 0,
        subset | (board & !((board - 1) as u64)) != 0,
        subset | (board & !((board - 1) as u64)) == board <==> subset == board & ((board
            - 1) as u64),
        subset.wrapping_sub(board) & board == subset | (board & !((board - 1) as u64)),
        (subset | (board & !((board - 1) as u64))).wrapping_sub(board) & board
            == subset.wrapping_sub(board & ((board - 1) as u64)) & (board & ((board - 1) as u64)),
{
}

/// The subset that follows a subset of a board: it is a subset of the board; it is the empty
/// board after the full board and after no other; it is larger as a number than the subset it
/// follows, and no subset of the board lies between the two.
pub proof fn lemma_next_subset(board: u64, subset: u64, other: u64)
    by (bit_vector)
    ensures
        (subset.wrapping_sub(board) & board) & !board == 0,
        subset & !board == 0 ==> (subset.wrapping_sub(board) & board == 0 <==> subset == board),
        subset & !board == 0 ==> subset <= board,
        subset & !board == 0 && subset != board ==> subset < subset.wrapping_sub(board) & board,
        subset & !board == 0 && other & !board == 0 && subset < other ==> subset.wrapping_sub(
            board,
        ) & board <= other,
{
}

/// The subsets of a board, counted up: the subset at each place below two to the power of the
/// number of squares is a subset of the board; the first is the empty board and no other is; the
/// last is the full board and no other is; and each is followed by the one at the next place,
/// the last by the empty board.
pub proof fn lemma_nth_subset(board: u64, rank: nat)
    requires
        rank < pow2(popcount(board)),
    ensures
        nth_subset(board, rank) & !board == 0,
        nth_subset(board, rank) == 0 <==> rank == 0,
        nth_subset(board, rank) == board <==> rank + 1 == pow2(popcount(board)),
        next_subset(board, nth_subset(board, rank)) == if rank + 1 == pow2(popcount(board)) {
            0
        } else {
            nth_subset(board, rank + 1)
        },
    decreases board,
{
    lemma_pow2_pos(popcount(board));
    lemma_bits_of_zero();
    if board == 0 {
        assert(pow2(0) == 1) by {
            vstd::arithmetic::power2::lemma2_to64();
        }
        lemma_next_subset(0, 0, 0);
    } else {
        let rest = board & ((board - 1) as u64);
        let lowest = board & !((board - 1) as u64);
        lemma_lowest_square(board, 0);
        lemma_popcount_clear_lowest(board);
        lemma_pow2_unfold(popcount(board));
        lemma_pow2_pos(popcount(rest));
        lemma_nth_subset(rest, rank / 2);
        let below = nth_subset(rest, rank / 2);
        lemma_lowest_square(board, below);
        if rank % 2 == 1 && rank + 1 < pow2(popcount(board)) {
            lemma_nth_subset(rest, rank / 2 + 1);
        }
        if rank % 2 == 1 && rank + 1 == pow2(popcount(board)) {
            lemma_next_subset(rest, rest, 0);
            lemma_popcount_zero(rest);
        }
        if rank == 0 {
            lemma_zeroth_subset(board);
        }
    }
}

/// The first subset of every board is the empty board.
pub proof fn lemma_zeroth_subset(board: u64)
    ensures
        nth_subset(board, 0) == 0,
    decreases board,
{
    if board != 0 {
        lemma_bits_of_zero();
        lemma_lowest_square(board, 0);
        lemma_zeroth_subset(board & ((board - 1) as u64));
    }
}

/// A board has two to the power of its number of squares subsets, and counting up from the
/// empty board meets each of them once, in rising order: the subset at a place below that number
/// is a subset of the board, it is larger than the subsets before it, every subset of the board
/// stands at one such place, and the empty board comes again right after the last place.
pub proof fn lemma_power_set_size(board: u64)
    ensures
        forall|rank: nat|
            rank < pow2(popcount(board)) ==> (#[trigger] nth_subset(board, rank)) & !board == 0,
        forall|rank: nat, later: nat|
            rank < later < pow2(popcount(board)) ==> (#[trigger] nth_subset(board, rank)) < (
            #[trigger] nth_subset(board, later)),
        forall|subset: u64|
            subset & !board == 0 ==> exists|rank: nat|
                rank < pow2(popcount(board)) && #[trigger] nth_subset(board, rank) == subset,
        forall|rank: nat|
            rank < pow2(popcount(board)) ==> (next_subset(board, #[trigger] nth_subset(board, rank))
                == 0 <==> rank + 1 == pow2(popcount(board))),
{
    assert forall|rank: nat| rank < pow2(popcount(board)) implies (#[trigger] nth_subset(
        board,
        rank,
    )) & !board == 0 && (next_subset(board, nth_subset(board, rank)) == 0 <==> rank + 1 == pow2(
        popcount(board),
    )) by {
        lemma_nth_subset(board, rank);
        if rank + 1 < pow2(popcount(board)) {
            lemma_nth_subset(board, rank + 1);
        }
    }
    assert forall|rank: nat, later: nat| rank < later < pow2(popcount(board)) implies (
    #[trigger] nth_subset(board, rank)) < (#[trigger] nth_subset(board, later)) by {
        lemma_subsets_rise(board, rank, later);
    }
    assert forall|subset: u64| subset & !board == 0 implies exists|rank: nat|
        rank < pow2(popcount(board)) && #[trigger] nth_subset(board, rank) == subset by {
        lemma_pow2_pos(popcount(board));
        lemma_zeroth_subset(board);
        lemma_subset_has_rank(board, subset, 0);
    }
}

/// Counting up, each subset of a board is larger than those before it.
pub proof fn lemma_subsets_rise(board: u64, rank: nat, later: nat)
    requires
        rank < later < pow2(popcount(board)),
    ensures
        nth_subset(board, rank) < nth_subset(board, later),
    decreases later - rank,
{
    lemma_nth_subset(board, rank);
    lemma_nth_subset(board, rank + 1);
    lemma_next_subset(board, nth_subset(board, rank), 0);
    if rank + 1 < later {
        lemma_subsets_rise(board, rank + 1, later);
    }
}

/// Counting up from a place whose subset is not larger than a given subset of the board meets
/// that subset.
pub proof fn lemma_subset_has_rank(board: u64, subset: u64, from: nat)
    requires
        subset & !board == 0,
        from < pow2(popcount(board)),
        nth_subset(board, from) <= subset,
    ensures
        exists|rank: nat| rank < pow2(popcount(board)) && #[trigger] nth_subset(board, rank) == subset,
    decreases pow2(popcount(board)) - from,
{
    lemma_nth_subset(board, from);
    let here = nth_subset(board, from);
    if here != subset {
        lemma_next_subset(board, here, subset);
        lemma_next_subset(board, subset, 0);
        lemma_nth_subset(board, from);
        lemma_subset_has_rank(board, subset, from + 1);
    }
}

/// Iterator over a [Bitboard] mask, which yields all potential subsets of the given board.
/// In other words, for each square that belongs to the mask, this will yield all sets that do
/// contain the square, and all sets that do not.
pub struct BitboardPowerSetIterator {
    /// The starting board.
    pub board: Bitboard,
    /// The next subset.
    pub subset: Bitboard,
    /// Whether or not iteration is done.
    pub done: bool,
}

impl BitboardPowerSetIterator {
    /// The iterator that hands out every subset of a board, the empty one first.
    pub fn new(board: Bitboard) -> (subsets: BitboardPowerSetIterator)
        ensures
            subsets == (BitboardPowerSetIterator { board, subset: Bitboard(0), done: false }),
            subsets.wf(),
    {
        proof {
            lemma_bits_of_zero();
        }
        BitboardPowerSetIterator { board, subset: Bitboard(0), done: false }
    }

    /// The next subset. The iterator then holds the subset that follows it, and is done once that
    /// one is the empty board again. `None`, and nothing changes, once the iterator is done.
    pub fn next(&mut self) -> (subset: Option<Bitboard>)
        ensures
            old(self).done ==> subset.is_none() && *final(self) == *old(self),
            !old(self).done ==> subset == Some(old(self).subset) && final(self).board == old(
                self,
            ).board && final(self).subset.0 == next_subset(
                old(self).board.0,
                old(self).subset.0,
            ) && final(self).done == (final(self).subset.0 == 0) && final(self).wf(),
    {
        proof {
            lemma_next_subset(self.board.0, self.subset.0, 0);
        }
        if self.done {
            return None;
        }
        let res = self.subset;
        self.subset = Bitboard(self.subset.0.wrapping_sub(self.board.0) & self.board.0);
        self.done = self.subset.0 == 0;
        Some(res)
    }

    /// The number of subsets of the board, as both bounds.
    pub fn size_hint(&self) -> (bounds: (usize, Option<usize>))
        requires
            popcount(self.board.0) < usize::BITS,
        ensures
            bounds.0 == pow2(popcount(self.board.0)),
            bounds.1 == Some(bounds.0),
    {
        let count = self.board.count();
        proof {
            vstd::bits::lemma_usize_pow2_no_overflow(count as nat);
            vstd::bits::lemma_usize_shl_is_mul(1, count as usize);
        }
        let size = 1usize << count;
        (size, Some(size))
    }

    /// Whether the subset that the iterator holds is a subset of its board, as it is in every
    /// iterator that [BitboardPowerSetIterator::new] made and [BitboardPowerSetIterator::next]
    /// moved on.
    pub open spec fn wf(self) -> bool {
        self.subset.subset_of(self.board)
    }

    /// All subsets still to come, in the order in which `next` hands them out: none if the
    /// iterator is done; else the subset that the iterator holds, each followed by the next
    /// subset of the board, up to the full board. A new iterator hands out the subsets of the
    /// board counted up from the empty one, two to the power of the number of squares in all.
    pub fn collect(self) -> (subsets: Vec<Bitboard>)
        requires
            self.wf(),
        ensures
            self.done ==> subsets.len() == 0,
            !self.done ==> subsets.len() > 0 && subsets[0] == self.subset
                && subsets[subsets.len() - 1] == self.board,
            forall|place: int|
                0 <= place < subsets.len() ==> (#[trigger] subsets[place]).subset_of(self.board),
            forall|place: int|
                0 <= place < subsets.len() - 1 ==> (#[trigger] subsets[place + 1]).0
                    == next_subset(self.board.0, subsets[place].0) && subsets[place].0
                    < subsets[place + 1].0,
            !self.done && self.subset.0 == 0 ==> subsets.len() == pow2(popcount(self.board.0))
                && forall|rank: int|
                0 <= rank < subsets.len() ==> (#[trigger] subsets[rank]).0 == nth_subset(
                    self.board.0,
                    rank as nat,
                ),
    {
        let ghost start = self;
        let ghost board = self.board.0;
        let ghost counted = !start.done && start.subset.0 == 0;
        let mut rest = self;
        let mut subsets: Vec<Bitboard> = Vec::new();
        proof {
            lemma_zeroth_subset(board);
            lemma_pow2_pos(popcount(board));
        }
        while !rest.done
            invariant
                rest.board.0 == board,
                rest.subset.0 & !board == 0,
                start.board.0 == board,
                !rest.done ==> (subsets.len() == 0 ==> !start.done && rest.subset == start.subset)
                    && (subsets.len() > 0 ==> rest.subset.0 == next_subset(
                    board,
                    subsets[subsets.len() - 1].0,
                ) && subsets[subsets.len() - 1].0 < rest.subset.0),
                rest.done ==> (start.done && subsets.len() == 0) || (subsets.len() > 0
                    && subsets[subsets.len() - 1].0 == board),
                subsets.len() > 0 ==> subsets[0] == start.subset && !start.done,
                forall|place: int|
                    0 <= place < subsets.len() ==> (#[trigger] subsets[place]).0 & !board == 0,
                forall|place: int|
                    0 <= place < subsets.len() - 1 ==> (#[trigger] subsets[place + 1]).0
                        == next_subset(board, subsets[place].0) && subsets[place].0
                        < subsets[place + 1].0,
                counted ==> (forall|rank: int|
                    0 <= rank < subsets.len() ==> (#[trigger] subsets[rank]).0 == nth_subset(
                        board,
                        rank as nat,
                    )) && if rest.done {
                    subsets.len() == pow2(popcount(board))
                } else {
                    subsets.len() < pow2(popcount(board)) && rest.subset.0 == nth_subset(
                        board,
                        subsets.len() as nat,
                    )
                },
            decreases
                    if rest.done {
                        0
                    } else {
                        board - rest.subset.0 + 1
                    },
        {
            let ghost before = rest.subset.0;
            proof {
                lemma_next_subset(board, before, 0);
                if counted {
                    lemma_nth_subset(board, subsets.len() as nat);
                    if subsets.len() + 1 < pow2(popcount(board)) {
                        lemma_nth_subset(board, (subsets.len() + 1) as nat);
                    }
                }
            }
            match rest.next() {
                Some(subset) => {
                    subsets.push(subset);
                },
                None => {},
            }
            proof {
                lemma_next_subset(board, rest.subset.0, 0);
            }
        }
        subsets
    }
}

} // verus!
