//! The alignment witness: what a payload type must guarantee about its bit
//! pattern before a tag can be hidden in it.

use vstd::arithmetic::div_mod::lemma_mod_breakdown;
use vstd::arithmetic::power2::{lemma_pow2_adds, lemma_pow2_pos, pow2};
use vstd::bits::{lemma_usize_low_bits_mask_is_mod, lemma_usize_pow2_no_overflow, low_bits_mask};
use vstd::prelude::*;

verus! {

/// A payload representation whose every legal bit pattern keeps its low
/// bits zero: the static capability that makes compaction sound.
///
/// `spec_alignment` is the guaranteed alignment in bytes.  A payload-less
/// representation reports the maximum representable alignment, since the
/// constraint is vacuous for it.  The trait also fixes the bijection
/// between legal values and their bit patterns, which the codec layers
/// rely on; `lemma_aligned_word` is the witness itself: the guaranteed
/// alignment really does keep the corresponding low bits of the pattern
/// zero.
pub trait Aligned: Sized {
    /// The alignment, in bytes, that every legal bit pattern respects.
    spec fn spec_alignment() -> usize;

    /// The bit pattern of this value, as one machine word.
    spec fn as_word(self) -> usize;

    /// The value a bit pattern stands for.
    spec fn from_word(word: usize) -> Self;

    /// The legal values of this payload representation.
    spec fn wf(self) -> bool;

    /// The witness: a legal value's bit pattern has its low `k` bits zero
    /// for every `2^k` up to the guaranteed alignment.
    proof fn lemma_aligned_word(self, k: nat)
        requires
            self.wf(),
            k < usize::BITS,
            pow2(k) <= Self::spec_alignment(),
        ensures
            self.as_word() & (low_bits_mask(k) as usize) == 0;

    /// Reading the bit pattern back yields the same value.
    proof fn lemma_from_as_word(self)
        requires
            self.wf(),
        ensures
            Self::from_word(self.as_word()) == self;

    /// The guaranteed alignment, as a runtime value.
    fn alignment() -> (r: usize)
        ensures
            r == Self::spec_alignment();

    /// Decomposes the value into its bit pattern.
    fn to_word(self) -> (r: usize)
        requires
            self.wf(),
        ensures
            r == self.as_word(),
    ;

    /// Rebuilds the value of a bit pattern.
    fn of_word(word: usize) -> (r: Self)
        ensures
            r == Self::from_word(word),
    ;

    /// Decides legality at runtime, for the callers that only learn the
    /// payload type generically.
    fn is_wf(&self) -> (r: bool)
        ensures
            r == self.wf(),
    ;
}

/// A word whose low `n` bits are zero keeps its low `k` bits zero for
/// every `k <= n`: guaranteeing a larger alignment guarantees every
/// smaller one.
pub proof fn lemma_mask_shrinks(word: usize, k: nat, n: nat)
    requires
        k <= n,
        n < usize::BITS,
        word & (low_bits_mask(n) as usize) == 0,
    ensures
        word & (low_bits_mask(k) as usize) == 0,
{
    lemma_usize_pow2_no_overflow(n);
    lemma_usize_pow2_no_overflow(k);
    lemma_usize_low_bits_mask_is_mod(word, n);
    lemma_usize_low_bits_mask_is_mod(word, k);
    lemma_pow2_pos(k);
    lemma_pow2_pos((n - k) as nat);
    lemma_pow2_adds(k, (n - k) as nat);
    lemma_mod_breakdown(word as int, pow2(k) as int, pow2((n - k) as nat) as int);
}

/// The larger of two alignments: what an owning handle guarantees when it
/// stores counters of the machine's word size beside the value it owns.
pub fn max(a: usize, b: usize) -> (r: usize)
    ensures
        r == (if a > b { a } else { b }),
{
    if a > b {
        a
    } else {
        b
    }
}

} // verus!
