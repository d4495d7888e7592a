use vstd::prelude::*;

verus! {

/// A trait to represent RNG for u64 values. A generator is seeded: the numbers that it hands
/// out follow from its state alone, so that two generators in the same state hand out the same
/// numbers. What is proved of a search with a generator is proved of the numbers that
/// [RandGen::upcoming] and [RandGen::advanced] name; a generator that is not verified is taken
/// at its word that `gen` hands out those numbers.
pub trait RandGen: Sized {
    /// The number that the generator hands out next: some number that follows from its state,
    /// for a generator that does not say which.
    open spec fn upcoming(&self) -> u64 {
        (arbitrary::<spec_fn(Self) -> u64>())(*self)
    }

    /// The generator after it has handed out its next number: some generator that follows from
    /// its state, for a generator that does not say which.
    open spec fn advanced(&self) -> Self {
        (arbitrary::<spec_fn(Self) -> Self>())(*self)
    }

    /// Hand out the next number.
    fn gen(&mut self) -> (number: u64)
        ensures
            number == old(self).upcoming(),
            *final(self) == old(self).advanced(),
    ;
}

/// The word with the bits of `bits` moved right by `by` places, those that leave at the low end
/// coming in again at the high end.
pub open spec fn rotated_right(bits: u64, by: u32) -> u64 {
    if by == 0 {
        bits
    } else {
        (bits >> (by as u64)) | (bits << ((64 - by) as u64))
    }
}

/// Taken on trust from the documentation of `u64::rotate_right`, not proved here: for an amount
/// below the width of the word, it shifts the bits to the right by that amount and wraps the
/// truncated bits to the beginning of the resulting integer.
pub assume_specification[ u64::rotate_right ](bits: u64, by: u32) -> (rotated: u64)
    requires
        by < 64,
    ensures
        rotated == rotated_right(bits, by),
;

/// A simple pcg64_fast RNG implementation, for code-generation.
pub struct SimpleRng(pub u128);

/// The multiplier by which the state of a [SimpleRng] advances.
pub const MULTIPLIER: u128 = 0x2360_ED05_1FC6_5DA4_4385_DF64_9FCC_F645;

/// The state of a [SimpleRng] after one more number.
pub open spec fn next_state(state: u128) -> u128 {
    state.wrapping_mul(MULTIPLIER)
}

/// The number that a [SimpleRng] hands out on reaching a state: the two halves of the state
/// combined, and rotated by its six highest bits.
pub open spec fn output_of(state: u128) -> u64 {
    rotated_right(((state >> 64) as u64) ^ (state as u64), (state >> 122) as u32)
}

impl SimpleRng {
    /// A generator in its first state, which is the same for every generator.
    pub fn new() -> (rng: SimpleRng)
        ensures
            rng.0 == 0xcafef00dd15ea5e5,
    {
        SimpleRng(0xcafef00dd15ea5e5)
    }

    /// Advance the state and hand out the number of the new state.
    pub fn gen(&mut self) -> (number: u64)
        ensures
            final(self).0 == next_state(old(self).0),
            number == output_of(final(self).0),
    {
        self.0 = self.0.wrapping_mul(MULTIPLIER);
        let rot = #[verifier::truncate]
        ((self.0 >> 122) as u32);
        let high = #[verifier::truncate]
        ((self.0 >> 64) as u64);
        let low = #[verifier::truncate]
        (self.0 as u64);
        let xsl = high ^ low;
        let ghost state = self.0;
        assert(((state >> 122) as u32) < 64) by (bit_vector);
        xsl.rotate_right(rot)
    }
}

impl RandGen for SimpleRng {
    open spec fn upcoming(&self) -> u64 {
        output_of(next_state(self.0))
    }

    open spec fn advanced(&self) -> SimpleRng {
        SimpleRng(next_state(self.0))
    }

    fn gen(&mut self) -> (number: u64) {
        SimpleRng::gen(self)
    }
}

} // verus!
