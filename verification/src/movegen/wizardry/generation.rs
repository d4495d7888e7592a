use vstd::arithmetic::power2::pow2;
use vstd::prelude::*;

use crate::board::bitboard::superset::{lemma_power_set_size, nth_subset};
use crate::board::bitboard::{popcount, Bitboard};
use crate::board::square::Square;
use crate::movegen::wizardry::mask::{
    generate_mask, lemma_attacks_not_empty, lemma_mask_is_relevant, reference_moves,
    relevance_mask, slider_attacks, Slider,
};
use crate::movegen::wizardry::{lemma_shifted_product, tabulates, Magic};
use crate::utils::rand::RandGen;

verus! {

/// The most squares that a mask can hold for its table to be built: as many as the mask of a
/// rook in a corner holds.
pub const MAX_RELEVANT_SQUARES: u32 = 12;

/// How many candidates are tried for one square before the search gives up.
pub const SEARCH_BUDGET: u64 = 0xffff_ffff_ffff_ffff;

/// Whether a candidate leads no two of the entries to the same index unless they hold the same
/// moves.
pub open spec fn is_magic(candidate: Magic, entries: Seq<(Bitboard, Bitboard)>) -> bool {
    forall|one: int, other: int|
        0 <= one < entries.len() && 0 <= other < entries.len() && candidate.local_index(
            (#[trigger] entries[one]).0.0,
        ) == candidate.local_index((#[trigger] entries[other]).0.0) ==> entries[one].1
            == entries[other].1
}

/// Whether a table holds, at the index to which the candidate leads each entry, the moves of
/// that entry, and the empty board wherever the candidate leads no entry.
pub open spec fn is_table_of(
    table: Seq<Bitboard>,
    candidate: Magic,
    entries: Seq<(Bitboard, Bitboard)>,
) -> bool {
    &&& table.len() == entries.len()
    &&& forall|entry: int|
        0 <= entry < entries.len() ==> table[candidate.local_index(
            (#[trigger] entries[entry]).0.0,
        ) as int] == entries[entry].1
    &&& forall|cell: int|
        0 <= cell < table.len() ==> (#[trigger] table[cell]).0 == 0 || exists|entry: int|
            0 <= entry < entries.len() && candidate.local_index((#[trigger] entries[entry]).0.0)
                == cell
}

/// The number of entries of the table of a slider on the square of an index: one for each
/// subset of its mask.
pub open spec fn table_size(slider: Slider, index: int) -> nat {
    pow2(popcount(relevance_mask(slider, Square::spec_from_index(index as usize))))
}

/// The place where the table of the square of an index ends, the tables of the squares
/// standing one after the other.
pub open spec fn tables_end(slider: Slider, squares: int) -> nat
    decreases squares,
{
    if squares <= 0 {
        0
    } else {
        tables_end(slider, squares - 1) + table_size(slider, squares - 1)
    }
}

/// The sets of blockers within the mask of a slider on a square, counted up, each with the
/// squares that the slider attacks given those blockers.
pub open spec fn reference_entries_of(slider: Slider, square: Square) -> Seq<(Bitboard, Bitboard)> {
    Seq::new(
        pow2(popcount(relevance_mask(slider, square))),
        |rank: int|
            (
                Bitboard(nth_subset(relevance_mask(slider, square), rank as nat)),
                Bitboard(
                    slider_attacks(
                        slider,
                        square.bit(),
                        nth_subset(relevance_mask(slider, square), rank as nat),
                    ),
                ),
            ),
    )
}

/// Whether the first `squares` magics are what a search leaves behind: each holds the mask of
/// its square, the shift that leaves as many bits as the mask has squares, and the place where
/// the tables before it end; each is a magic for the entries of its square; and the moves hold,
/// from that place on, the table of the magic for those entries.
pub open spec fn searched(
    magics: Seq<Magic>,
    moves: Seq<Bitboard>,
    slider: Slider,
    squares: int,
) -> bool {
    &&& squares <= magics.len()
    &&& moves.len() == tables_end(slider, squares)
    &&& forall|index: int|
        0 <= index < squares ==> {
            let magic = #[trigger] magics[index];
            let local = Magic { offset: 0, ..magic };
            let entries = reference_entries_of(slider, Square::spec_from_index(index as usize));
            &&& magic.mask.0 == relevance_mask(slider, Square::spec_from_index(index as usize))
            &&& magic.shift == 64 - popcount(magic.mask.0)
            &&& magic.offset == tables_end(slider, index)
            &&& is_magic(local, entries)
            &&& is_table_of(
                moves.subrange(
                    tables_end(slider, index) as int,
                    tables_end(slider, index + 1) as int,
                ),
                local,
                entries,
            )
        }
}

/// The candidate that a generator yields: the numbers of its next three draws, of which the bits
/// are kept that are set in all three.
pub open spec fn candidate_of<R: RandGen>(rng: R) -> u64 {
    rng.upcoming() & rng.advanced().upcoming() & rng.advanced().advanced().upcoming()
}

/// The generator after it has yielded a candidate.
pub open spec fn after_candidate<R: RandGen>(rng: R) -> R {
    rng.advanced().advanced().advanced()
}

/// The magic that a number makes for a slider on the square of an index, as it is tried: with
/// the mask of the square, the shift that leaves as many bits as the mask has squares, and no
/// offset.
pub open spec fn candidate_magic(slider: Slider, index: int, number: u64) -> Magic {
    let mask = relevance_mask(slider, Square::spec_from_index(index as usize));
    Magic { magic: number, offset: 0, mask: Bitboard(mask), shift: (64 - popcount(mask)) as u8 }
}

/// The outcome of the search on one square with at most `budget` candidates: the first candidate
/// that the generator yields and that is a magic for the entries of the square, with the
/// generator as it is left after that candidate; nothing if no candidate within the budget is.
#[verifier::opaque]
pub open spec fn search_square<R: RandGen>(
    slider: Slider,
    index: int,
    rng: R,
    budget: nat,
) -> Option<(u64, R)>
    decreases budget,
{
    if budget == 0 {
        None
    } else if is_magic(
        candidate_magic(slider, index, candidate_of(rng)),
        reference_entries_of(slider, Square::spec_from_index(index as usize)),
    ) {
        Some((candidate_of(rng), after_candidate(rng)))
    } else {
        search_square(slider, index, after_candidate(rng), (budget - 1) as nat)
    }
}

/// The outcome of the search on the first `squares` squares, one after the other: the magic
/// numbers found, with the generator as it is left; nothing if a mask is empty or holds more
/// than [MAX_RELEVANT_SQUARES] squares, or if the search on one square finds nothing within
/// [SEARCH_BUDGET] candidates.
#[verifier::opaque]
pub open spec fn search_squares<R: RandGen>(slider: Slider, rng: R, squares: int) -> Option<
    (Seq<u64>, R),
>
    decreases squares,
{
    if squares <= 0 {
        Some((Seq::empty(), rng))
    } else {
        match search_squares(slider, rng, squares - 1) {
            Some((numbers, left)) => {
                let count = popcount(
                    relevance_mask(slider, Square::spec_from_index((squares - 1) as usize)),
                );
                if count == 0 || count > MAX_RELEVANT_SQUARES {
                    None
                } else {
                    match search_square(slider, squares - 1, left, SEARCH_BUDGET as nat) {
                        Some((number, after)) => Some((numbers.push(number), after)),
                        None => None,
                    }
                }
            },
            None => None,
        }
    }
}

/// Whether tables are what the search with a generator leaves behind, and the generator is as
/// the search leaves it: where the search finds a magic number for every square, there are
/// tables, the magics hold those numbers, and the tables are as [searched] and [tabulates] say;
/// where it does not, there are none.
pub open spec fn is_search_outcome<R: RandGen>(
    slider: Slider,
    before: R,
    after: R,
    tables: Option<(Vec<Magic>, Vec<Bitboard>)>,
) -> bool {
    match search_squares(slider, before, 64) {
        Some((numbers, left)) => {
            &&& tables matches Some((magics, moves))
            &&& after == left
            &&& magics.len() == 64
            &&& forall|index: int|
                0 <= index < 64 ==> (#[trigger] magics[index]).magic == numbers[index]
            &&& tabulates(magics@, moves@, slider, 64)
            &&& searched(magics@, moves@, slider, 64)
        },
        None => tables.is_none(),
    }
}

/// Once the search has failed on some square, it has failed.
pub proof fn lemma_search_failed<R: RandGen>(slider: Slider, rng: R, fewer: int, squares: int)
    requires
        fewer <= squares,
        search_squares(slider, rng, fewer).is_none(),
    ensures
        search_squares(slider, rng, squares).is_none(),
    decreases squares - fewer,
{
    reveal_with_fuel(search_squares, 1);
    if fewer < squares {
        lemma_search_failed(slider, rng, fewer, squares - 1);
    }
}

/// Try a candidate on the entries of a square, each a set of blockers with the moves it allows:
/// the table of the candidate, unless the candidate leads two entries with different moves to
/// the same index.
pub fn try_magic(candidate: &Magic, entries: &Vec<(Bitboard, Bitboard)>) -> (table: Option<
    Vec<Bitboard>,
>)
    requires
        candidate.fits(),
        candidate.offset == 0,
        forall|entry: int|
            0 <= entry < entries.len() ==> candidate.local_index((#[trigger] entries[entry]).0.0)
                < entries.len() && entries[entry].1.0 != 0,
    ensures
        table.is_some() <==> is_magic(*candidate, entries@),
        table matches Some(moves) ==> is_table_of(moves@, *candidate, entries@),
{
    let mut candidate_moves = vec![Bitboard(0); entries.len()];
    let mut entry: usize = 0;
    while entry < entries.len()
        invariant
            entry <= entries.len(),
            candidate.fits(),
            candidate.offset == 0,
            candidate_moves.len() == entries.len(),
            forall|entry: int|
                0 <= entry < entries.len() ==> candidate.local_index(
                    (#[trigger] entries[entry]).0.0,
                ) < entries.len() && entries[entry].1.0 != 0,
            forall|done: int|
                0 <= done < entry ==> candidate_moves[candidate.local_index(
                    (#[trigger] entries[done]).0.0,
                ) as int] == entries[done].1,
            forall|cell: int|
                0 <= cell < candidate_moves.len() ==> (#[trigger] candidate_moves[cell]).0 == 0
                    || exists|done: int|
                    0 <= done < entry && candidate.local_index((#[trigger] entries[done]).0.0)
                        == cell,
        decreases entries.len() - entry,
    {
        let (occupancy, moves) = entries[entry];
        let index = candidate.get_index(occupancy);
        // Non-constructive collision, try with another candidate
        if !candidate_moves[index].is_empty() && candidate_moves[index] != moves {
            proof {
                let earlier = choose|done: int|
                    0 <= done < entry && candidate.local_index((#[trigger] entries[done]).0.0)
                        == index;
                assert(entries[earlier].1 != entries[entry as int].1);
            }
            return None;
        }
        let ghost before = candidate_moves@;
        candidate_moves[index] = moves;
        proof {
            assert forall|done: int| 0 <= done < entry + 1 implies candidate_moves[candidate.local_index(
                (#[trigger] entries[done]).0.0,
            ) as int] == entries[done].1 by {
                let at = candidate.local_index(entries[done].0.0) as int;
                if done < entry && at == index {
                    assert(before[at] == entries[done].1);
                }
            }
            assert forall|cell: int| 0 <= cell < candidate_moves.len() implies (
            #[trigger] candidate_moves[cell]).0 == 0 || exists|done: int|
                0 <= done < entry + 1 && candidate.local_index((#[trigger] entries[done]).0.0)
                    == cell by {
                if cell == index {
                    assert(candidate.local_index(entries[entry as int].0.0) == cell);
                } else if before[cell].0 != 0 {
                    let done = choose|done: int|
                        0 <= done < entry && candidate.local_index((#[trigger] entries[done]).0.0)
                            == cell;
                    assert(candidate.local_index(entries[done].0.0) == cell);
                }
            }
        }
        entry += 1;
    }
    Some(candidate_moves)
}

/// The sets of blockers within a mask that matter to a slider on a square, each with the moves
/// that it allows: one entry for each subset of the mask, in the order in which the subsets are
/// counted up.
fn reference_entries(slider: Slider, square: Square, mask: Bitboard) -> (entries: Vec<
    (Bitboard, Bitboard),
>)
    requires
        mask.0 == relevance_mask(slider, square),
    ensures
        entries@ == reference_entries_of(slider, square),
{
    let subsets = mask.iter_power_set().collect();
    let mut entries: Vec<(Bitboard, Bitboard)> = Vec::new();
    let mut rank: usize = 0;
    while rank < subsets.len()
        invariant
            rank <= subsets.len(),
            entries.len() == rank,
            subsets.len() == pow2(popcount(mask.0)),
            forall|rank: int|
                0 <= rank < subsets.len() ==> (#[trigger] subsets[rank]).0 == nth_subset(
                    mask.0,
                    rank as nat,
                ),
            forall|done: int|
                0 <= done < rank ==> (#[trigger] entries[done]).0.0 == nth_subset(
                    mask.0,
                    done as nat,
                ) && entries[done].1.0 == slider_attacks(slider, square.bit(), entries[done].0.0),
        decreases subsets.len() - rank,
    {
        let occupancy = subsets[rank];
        entries.push((occupancy, reference_moves(slider, square, occupancy)));
        rank += 1;
    }
    assert(entries@ =~= reference_entries_of(slider, square));
    entries
}

/// Draw a candidate: few bits make for better candidates.
fn magic_candidate<R: RandGen>(rng: &mut R) -> (number: u64)
    ensures
        number == candidate_of(*old(rng)),
        *final(rng) == after_candidate(*old(rng)),
{
    let first = rng.gen();
    let second = rng.gen();
    let third = rng.gen();
    first & second & third
}

/// Search the magics of a slider, square by square, with candidates drawn from `rng`, and put
/// the tables of all squares one after the other: for each square the first candidate that is a
/// magic is kept. `None` where a mask is empty or holds more than [MAX_RELEVANT_SQUARES]
/// squares, or where [SEARCH_BUDGET] candidates have failed on one square.
pub fn generate_magics<R: RandGen>(rng: &mut R, slider: Slider) -> (tables: Option<
    (Vec<Magic>, Vec<Bitboard>),
>)
    ensures
        is_search_outcome(slider, *old(rng), *final(rng), tables),
{
    let mut magics: Vec<Magic> = Vec::new();
    let mut boards: Vec<Bitboard> = Vec::new();
    let ghost first = *rng;
    let ghost mut numbers: Seq<u64> = Seq::empty();
    proof {
        reveal_with_fuel(search_squares, 1);
    }

    let mut index: usize = 0;
    while index < 64
        invariant
            index <= 64,
            magics.len() == index,
            boards.len() <= index * 4096,
            tabulates(magics@, boards@, slider, index as int),
            searched(magics@, boards@, slider, index as int),
            first == *old(rng),
            search_squares(slider, first, index as int) == Some((numbers, *rng)),
            numbers.len() == index,
            forall|done: int|
                0 <= done < index ==> (#[trigger] magics[done]).magic == numbers[done],
        decreases 64 - index,
    {
        let square = Square::from_index(index);
        let mask = generate_mask(slider, square);
        let count = mask.count();
        if count == 0 || count > MAX_RELEVANT_SQUARES {
            proof {
                reveal_with_fuel(search_squares, 1);
                assert(search_squares(slider, first, index + 1).is_none());
                lemma_search_failed(slider, first, index + 1, 64);
            }
            return None;
        }
        let occupancy_to_moves = reference_entries(slider, square, mask);
        let shift = (64 - count) as u8;
        proof {
            lemma_table_size(count as u64);
        }

        let mut found = false;
        let mut attempts: u64 = 0;
        let ghost start = *rng;
        while !found && attempts < SEARCH_BUDGET
            invariant
                index < 64,
                attempts <= SEARCH_BUDGET,
                search_squares(slider, first, index as int) == Some((numbers, start)),
                numbers.len() == index,
                forall|done: int|
                    0 <= done < index ==> (#[trigger] magics[done]).magic == numbers[done],
                search_square(slider, index as int, start, SEARCH_BUDGET as nat) == if found {
                    Some((magics[index as int].magic, *rng))
                } else {
                    search_square(slider, index as int, *rng, (SEARCH_BUDGET - attempts) as nat)
                },
                square.spec_index() == index,
                mask.0 == relevance_mask(slider, square),
                1 <= count <= MAX_RELEVANT_SQUARES,
                count == popcount(mask.0),
                shift == 64 - count,
                square == Square::spec_from_index(index),
                occupancy_to_moves@ == reference_entries_of(slider, square),
                pow2(count as nat) == 1u64 << (count as u64),
                pow2(count as nat) <= 4096,
                magics.len() == if found {
                    index + 1
                } else {
                    index as int
                },
                boards.len() <= (if found {
                    index + 1
                } else {
                    index as int
                }) * 4096,
                tabulates(
                    magics@,
                    boards@,
                    slider,
                    if found {
                        index + 1
                    } else {
                        index as int
                    },
                ),
                searched(
                    magics@,
                    boards@,
                    slider,
                    if found {
                        index + 1
                    } else {
                        index as int
                    },
                ),
            decreases SEARCH_BUDGET - attempts,
        {
            attempts += 1;
            let mut candidate = Magic { magic: magic_candidate(rng), offset: 0, mask, shift };
            proof {
                reveal_with_fuel(search_square, 1);
                lemma_shifted_product(0, shift as u64);
                assert forall|rank: int| 0 <= rank < occupancy_to_moves.len() implies candidate.local_index(
                    (#[trigger] occupancy_to_moves[rank]).0.0,
                ) < occupancy_to_moves.len() && occupancy_to_moves[rank].1.0 != 0 by {
                    let occupancy = occupancy_to_moves[rank].0.0;
                    lemma_power_set_size(mask.0);
                    lemma_relevant_blockers(occupancy, mask.0);
                    lemma_shifted_product(
                        (occupancy & mask.0).wrapping_mul(candidate.magic),
                        shift as u64,
                    );
                    lemma_attacks_not_empty(slider, square, occupancy);
                }
            }
            if let Some(mut candidate_moves) = try_magic(&candidate, &occupancy_to_moves) {
                // We have filled all candidate boards, record the correct offset and add the moves
                let ghost local = candidate;
                let ghost table = candidate_moves@;
                let ghost before_magics = magics@;
                let ghost before_boards = boards@;
                candidate.offset = boards.len();
                magics.push(candidate);
                boards.append(&mut candidate_moves);
                found = true;
                proof {
                    lemma_power_set_size(mask.0);
                    assert forall|done: int, blockers: u64| 0 <= done < index + 1 implies 0
                        <= #[trigger] magics[done].spec_index(blockers) < boards.len()
                        && boards[magics[done].spec_index(blockers)].0 == slider_attacks(
                        slider,
                        1u64 << (done as u64),
                        blockers,
                    ) by {
                        if done < index {
                            assert(magics[done] == before_magics[done]);
                            let at = before_magics[done].spec_index(blockers);
                            assert(boards[at] == before_boards[at]);
                        } else {
                            let occupancy = blockers & mask.0;
                            lemma_relevant_blockers(blockers, mask.0);
                            let rank = choose|rank: nat|
                                rank < pow2(popcount(mask.0)) && #[trigger] nth_subset(mask.0, rank)
                                    == occupancy;
                            assert(occupancy_to_moves[rank as int].0.0 == occupancy);
                            lemma_mask_is_relevant(slider, square, blockers);
                            lemma_shifted_product(
                                (blockers & mask.0).wrapping_mul(candidate.magic),
                                shift as u64,
                            );
                            let at = local.local_index(blockers) as int;
                            assert(local.local_index(occupancy) == at);
                            assert(table[at] == occupancy_to_moves[rank as int].1);
                            assert(boards[before_boards.len() + at] == table[at]);
                        }
                    }
                    assert(tables_end(slider, index + 1) == before_boards.len() + table.len());
                    assert forall|done: int| 0 <= done < index + 1 implies ({
                        let magic = #[trigger] magics[done];
                        let local = Magic { offset: 0, ..magic };
                        let entries = reference_entries_of(
                            slider,
                            Square::spec_from_index(done as usize),
                        );
                        &&& magic.mask.0 == relevance_mask(
                            slider,
                            Square::spec_from_index(done as usize),
                        )
                        &&& magic.shift == 64 - popcount(magic.mask.0)
                        &&& magic.offset == tables_end(slider, done)
                        &&& is_magic(local, entries)
                        &&& is_table_of(
                            boards@.subrange(
                                tables_end(slider, done) as int,
                                tables_end(slider, done + 1) as int,
                            ),
                            local,
                            entries,
                        )
                    }) by {
                        if done < index {
                            assert(magics[done] == before_magics[done]);
                            lemma_tables_end_grows(slider, done + 1, index as int);
                            assert(boards@.subrange(
                                tables_end(slider, done) as int,
                                tables_end(slider, done + 1) as int,
                            ) =~= before_boards.subrange(
                                tables_end(slider, done) as int,
                                tables_end(slider, done + 1) as int,
                            ));
                        } else {
                            assert(Magic { offset: 0, ..magics[done] } == local);
                            assert(boards@.subrange(
                                tables_end(slider, done) as int,
                                tables_end(slider, done + 1) as int,
                            ) =~= table);
                        }
                    }
                }
            }
        }
        if !found {
            proof {
                reveal_with_fuel(search_squares, 1);
                reveal_with_fuel(search_square, 1);
                assert(search_square(slider, index as int, start, SEARCH_BUDGET as nat).is_none());
                assert(search_squares(slider, first, index + 1).is_none());
                lemma_search_failed(slider, first, index + 1, 64);
            }
            return None;
        }
        proof {
            reveal_with_fuel(search_squares, 1);
            numbers = numbers.push(magics[index as int].magic);
        }
        index += 1;
    }
    Some((magics, boards))
}

/// Search the magics of the bishop with candidates drawn from `rng`: see [generate_magics].
pub fn generate_bishop_magics<R: RandGen>(rng: &mut R) -> (tables: Option<
    (Vec<Magic>, Vec<Bitboard>),
>)
    ensures
        is_search_outcome(Slider::Bishop, *old(rng), *final(rng), tables),
{
    generate_magics(rng, Slider::Bishop)
}

/// Search the magics of the rook with candidates drawn from `rng`: see [generate_magics].
pub fn generate_rook_magics<R: RandGen>(rng: &mut R) -> (tables: Option<
    (Vec<Magic>, Vec<Bitboard>),
>)
    ensures
        is_search_outcome(Slider::Rook, *old(rng), *final(rng), tables),
{
    generate_magics(rng, Slider::Rook)
}

/// The tables of more squares end further on.
proof fn lemma_tables_end_grows(slider: Slider, fewer: int, squares: int)
    requires
        fewer <= squares,
    ensures
        tables_end(slider, fewer) <= tables_end(slider, squares),
    decreases squares - fewer,
{
    if fewer < squares {
        lemma_tables_end_grows(slider, fewer, squares - 1);
    }
}

/// The size of the table of a mask of a given number of squares.
proof fn lemma_table_size(count: u64)
    requires
        1 <= count <= 12,
    ensures
        pow2(count as nat) == 1u64 << count,
        pow2(count as nat) <= 4096,
{
    vstd::bits::lemma_u64_pow2_no_overflow(count as nat);
    vstd::bits::lemma_u64_shl_is_mul(1, count);
    vstd::arithmetic::power2::lemma2_to64();
    vstd::arithmetic::power2::lemma_pow2_strictly_increases(count as nat, 13);
}

/// The blockers within a mask are a subset of the mask, and within the mask they are
/// themselves.
proof fn lemma_relevant_blockers(blockers: u64, mask: u64)
    by (bit_vector)
    ensures
        (blockers & mask) & !mask == 0,
        (blockers & mask) & mask == blockers & mask,
{
}

} // verus!
