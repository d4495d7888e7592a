//! Facts about machine words read as sets of bit positions.

use vstd::prelude::*;
use vstd::std_specs::bits::axiom_u64_trailing_zeros;

use crate::board::bitboard::{has_bit, popcount};

verus! {

/// The word whose bits are set from position `from` upwards.
pub open spec fn bits_from(from: int) -> u64 {
    if from >= 64 {
        0
    } else if from <= 0 {
        u64::MAX
    } else {
        u64::MAX << (from as u64)
    }
}

/// The empty word in unions, intersections and differences.
pub proof fn lemma_bits_of_zero()
    by (bit_vector)
    ensures
        forall|bits: u64| #[trigger] (bits & 0) == 0,
        forall|bits: u64| #[trigger] (0 & bits) == 0,
        forall|bits: u64| #[trigger] (bits | 0) == bits,
        forall|bits: u64| #[trigger] (0 | bits) == bits,
        forall|bits: u64| #[trigger] (bits ^ 0) == bits,
        forall|bits: u64| #[trigger] (0 ^ bits) == bits,
{
}

/// The halves of a word and of the same word without its lowest set bit.
proof fn lemma_clear_lowest_halves(bits: u64)
    by (bit_vector)
    requires
        bits != 0,
    ensures
        (bits & ((bits - 1) as u64)) % 2 == 0,
        bits % 2 == 1 ==> (bits & ((bits - 1) as u64)) / 2 == bits / 2,
        bits % 2 == 0 ==> bits / 2 != 0 && (bits & ((bits - 1) as u64)) / 2 == (bits / 2) & ((bits
            / 2 - 1) as u64),
{
}

/// Only the empty word has no bit set.
pub proof fn lemma_popcount_zero(bits: u64)
    ensures
        popcount(bits) == 0 <==> bits == 0,
    decreases bits,
{
    if bits != 0 && bits % 2 == 0 {
        lemma_popcount_zero(bits / 2);
    }
}

/// Clearing the lowest set bit of a word takes one from its number of set bits.
pub proof fn lemma_popcount_clear_lowest(bits: u64)
    requires
        bits != 0,
    ensures
        popcount(bits & ((bits - 1) as u64)) + 1 == popcount(bits),
    decreases bits,
{
    lemma_clear_lowest_halves(bits);
    let cleared = bits & ((bits - 1) as u64);
    if bits % 2 == 0 {
        lemma_popcount_clear_lowest(bits / 2);
        lemma_popcount_zero(cleared);
    } else {
        if cleared != 0 {
        } else {
            assert(bits / 2 == 0);
        }
    }
}

/// What the position of the lowest set bit tells of a word: the word without that bit, the bits
/// below and at that position, and the word itself where it has no other bit.
proof fn lemma_lowest_bit(bits: u64, lowest: u64)
    by (bit_vector)
    requires
        lowest < 64,
        (bits >> lowest) & 1 == 1,
        bits << ((64 - lowest) as u64) == 0,
    ensures
        bits != 0,
        bits & ((bits - 1) as u64) == bits ^ (1u64 << lowest),
        bits & ((bits - 1) as u64) == 0 ==> bits == 1u64 << lowest,
        lowest < 63 ==> bits & ((bits - 1) as u64) == bits & (0xffff_ffff_ffff_ffffu64 << ((lowest
            + 1) as u64)),
        lowest == 63 ==> bits & ((bits - 1) as u64) == 0,
        bits & 0 == 0,
        forall|index: u64| index < lowest ==> (bits >> index) & 1 == 0,
{
}

/// The lowest set bit of a word that is not empty, as `trailing_zeros` gives it.
pub proof fn lemma_trailing_zeros(bits: u64)
    requires
        bits != 0,
    ensures
        bits.trailing_zeros() < 64,
        has_bit(bits, bits.trailing_zeros() as int),
        forall|index: int| 0 <= index < bits.trailing_zeros() ==> !has_bit(bits, index),
        bits & ((bits - 1) as u64) == bits ^ (1u64 << (bits.trailing_zeros() as u64)),
        bits & ((bits - 1) as u64) == bits & bits_from(bits.trailing_zeros() + 1),
        popcount(bits) == 1 ==> bits == 1u64 << (bits.trailing_zeros() as u64),
{
    axiom_u64_trailing_zeros(bits);
    let lowest = bits.trailing_zeros() as u64;
    lemma_lowest_bit(bits, lowest);
    assert forall|index: int| 0 <= index < bits.trailing_zeros() implies !has_bit(bits, index) by {
        assert((bits >> (index as u64)) & 1 == 0);
    }
    if popcount(bits) == 1 {
        lemma_popcount_clear_lowest(bits);
        lemma_popcount_zero(bits & ((bits - 1) as u64));
    }
}

/// The bits of a word from a position upwards, bit by bit, and cut a second time further up.
proof fn lemma_high_bits(bits: u64, from: u64, later: u64, index: u64)
    by (bit_vector)
    requires
        from <= later < 64,
        index < 64,
    ensures
        ((bits & (0xffff_ffff_ffff_ffffu64 << from)) >> index) & 1 == 1 <==> ((bits >> index) & 1
            == 1 && from <= index),
        (bits & (0xffff_ffff_ffff_ffffu64 << from)) & (0xffff_ffff_ffff_ffffu64 << later) == bits
            & (0xffff_ffff_ffff_ffffu64 << later),
        bits & 0xffff_ffff_ffff_ffffu64 == bits,
        0xffff_ffff_ffff_ffffu64 << 0 == 0xffff_ffff_ffff_ffffu64,
        (0u64 >> index) & 1 == 0,
        bits << 64 == 0,
{
}

/// The bits of a word cut from a position upwards: the bits of the word that stand there, and
/// the same bits if the word is cut again further up.
pub proof fn lemma_bits_from(bits: u64, from: int, later: int, index: int)
    requires
        0 <= from <= later <= 64,
    ensures
        has_bit(bits & bits_from(from), index) <==> has_bit(bits, index) && from <= index,
        bits & bits_from(0) == bits,
        bits & bits_from(from) == 0 && has_bit(bits, index) ==> index < from,
        (bits & bits_from(from)) & bits_from(later) == bits & bits_from(later),
{
    lemma_bits_of_zero();
    let at = if 0 <= index < 64 {
        index as u64
    } else {
        0
    };
    if later < 64 {
        lemma_high_bits(bits, from as u64, later as u64, at);
    } else if from < 64 {
        lemma_high_bits(bits, from as u64, from as u64, at);
    } else {
        lemma_high_bits(bits, 0, 0, at);
    }
}

/// A single bit, and a word with or without it.
pub proof fn lemma_single_bit(position: u64)
    by (bit_vector)
    requires
        position < 64,
    ensures
        1u64 << position != 0,
        (1u64 << position) & (((1u64 << position) - 1) as u64) == 0,
        ((1u64 << position) >> position) & 1 == 1,
        forall|index: u64| index < 64 ==> (((1u64 << position) >> index) & 1 == 1 <==> index == position),
        forall|bits: u64| bits & (1u64 << position) != 0 <==> (bits >> position) & 1 == 1,
        forall|bits: u64| (1u64 << position) & bits != 0 <==> (bits >> position) & 1 == 1,
{
}

/// A word of one bit has one bit set, at that bit's position.
pub proof fn lemma_single_bit_popcount(position: u64)
    requires
        position < 64,
    ensures
        popcount(1u64 << position) == 1,
        (1u64 << position).trailing_zeros() == position,
{
    lemma_single_bit(position);
    let bit = 1u64 << position;
    lemma_popcount_clear_lowest(bit);
    lemma_trailing_zeros(bit);
    let lowest = bit.trailing_zeros() as u64;
    assert(has_bit(bit, lowest as int));
}

/// The bits of a word in which one bit was flipped, and of the squares that two words share.
proof fn lemma_flipped_bit(bits: u64, other: u64, position: u64, index: u64)
    by (bit_vector)
    requires
        position < 64,
        index < 64,
    ensures
        ((bits ^ (1u64 << position)) >> index) & 1 == 1 <==> (((bits >> index) & 1 == 1) != (index
            == position)),
        ((bits & other) >> index) & 1 == 1 <==> ((bits >> index) & 1 == 1 && (other >> index) & 1
            == 1),
        ((bits | other) >> index) & 1 == 1 <==> ((bits >> index) & 1 == 1 || (other >> index) & 1
            == 1),
        (0u64 >> index) & 1 == 0,
{
}

/// Flipping one bit of a word changes that bit and no other; a bit is set in the intersection
/// of two words where it is set in both, and in their union where it is set in one of them.
pub proof fn lemma_has_bit_algebra(bits: u64, other: u64, position: int, index: int)
    requires
        0 <= position < 64,
    ensures
        has_bit(bits ^ (1u64 << (position as u64)), index) <==> (0 <= index < 64 && (has_bit(
            bits,
            index,
        ) != (index == position))),
        has_bit(bits & other, index) <==> has_bit(bits, index) && has_bit(other, index),
        has_bit(bits | other, index) <==> has_bit(bits, index) || has_bit(other, index),
        has_bit(bits, position) <==> bits & (1u64 << (position as u64)) != 0,
        has_bit(bits, position) <==> (1u64 << (position as u64)) & bits != 0,
        !has_bit(0, index),
{

    if 0 <= index < 64 {
        lemma_flipped_bit(bits, other, position as u64, index as u64);
    }
    lemma_single_bit(position as u64);
}

/// Words flipped by the same bits twice, or by several words in one order or another.
pub proof fn lemma_xor_algebra()
    by (bit_vector)
    ensures
        forall|a: u64, b: u64| #[trigger] ((a ^ b) ^ b) == a,
        forall|a: u64, b: u64, c: u64| #[trigger] ((a ^ b) ^ c) == (a ^ c) ^ b,
        forall|a: u64, b: u64, c: u64| #[trigger] ((a | b) | c) == a | (b | c),
{
}

} // verus!
