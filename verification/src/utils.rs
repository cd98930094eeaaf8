//! Ready-made payload types: a placeholder for payload-less variants and
//! pre-shifted integers whose low bits are zero by construction.

use crate::aligned::{lemma_mask_shrinks, Aligned};
use vstd::arithmetic::power2::{lemma_pow2_pos, lemma_pow2_strictly_increases, pow2};
use vstd::bits::{lemma_usize_pow2_no_overflow, lemma_usize_shl_is_mul, lemma_usize_shr_is_div,
    low_bits_mask};
use vstd::prelude::*;

verus! {

/// Placeholder payload of a unit variant: it always stores a zero word, so
/// any alignment demand holds of it vacuously and it reports the maximum
/// representable alignment.
#[derive(Clone, Copy, PartialEq, Eq, PartialOrd, Ord, Debug, Default, Hash, Structural)]
pub struct Unit(pub usize);

impl Unit {
    /// The one legal placeholder value.
    pub fn new() -> (r: Self)
        ensures
            r.0 == 0,
            r.wf(),
    {
        Unit(0)
    }
}

impl Aligned for Unit {
    open spec fn spec_alignment() -> usize {
        usize::MAX
    }

    open spec fn as_word(self) -> usize {
        self.0
    }

    open spec fn from_word(word: usize) -> Self {
        Unit(0)
    }

    open spec fn wf(self) -> bool {
        self.0 == 0
    }

    proof fn lemma_aligned_word(self, k: nat) {
        let m = low_bits_mask(k) as usize;
        assert(0usize & m == 0) by (bit_vector);
    }

    proof fn lemma_from_as_word(self) {
    }

    fn alignment() -> (r: usize) {
        usize::MAX
    }

    fn to_word(self) -> (r: usize) {
        self.0
    }

    fn of_word(word: usize) -> (r: Self) {
        Unit(0)
    }

    fn is_wf(&self) -> (r: bool) {
        self.0 == 0
    }
}

/// A left shift keeps the shifted-out low bits zero.
pub(crate) proof fn lemma_shl_low_bits_zero(val: usize, sh: usize)
    requires
        sh < usize::BITS,
    ensures
        (val << sh) & (low_bits_mask(sh as nat) as usize) == 0,
{
    let m = low_bits_mask(sh as nat) as usize;
    lemma_usize_pow2_no_overflow(sh as nat);
    lemma_usize_shl_is_mul(1, sh);
    assert(m + 1 == 1usize << sh);
    assert((val << sh) & m == 0) by (bit_vector)
        requires
            sh < usize::BITS,
            m + 1 == 1usize << sh,
    ;
}

/// `1 << sh` is the power of two it looks like.
proof fn lemma_shl_one_is_pow2(sh: usize)
    requires
        sh < usize::BITS,
    ensures
        (1usize << sh) as nat == pow2(sh as nat),
{
    lemma_usize_pow2_no_overflow(sh as nat);
    lemma_usize_shl_is_mul(1, sh);
}

/// A [`usize`] stored shifted left by `N` bits, so its low `N` bits are
/// zero by construction and it can carry a tag of up to `N` bits.
#[derive(Clone, Copy, PartialEq, Eq, PartialOrd, Ord, Debug, Default, Hash)]
pub struct ShiftUsize<const N: usize>(pub usize);

impl<const N: usize> ShiftUsize<N> {
    /// Creates a new value from an unshifted number.
    pub fn new(val: usize) -> (r: Self)
        requires
            N < usize::BITS,
        ensures
            r.0 == val << N,
            r.wf(),
    {
        proof {
            lemma_shl_low_bits_zero(val, N);
        }
        ShiftUsize(val << N)
    }

    /// Returns the unshifted number.
    pub fn get(&self) -> (r: usize)
        requires
            N < usize::BITS,
        ensures
            r == self.0 >> N,
    {
        self.0 >> N
    }

    /// Sets the value by an unshifted number.
    pub fn set(&mut self, val: usize)
        requires
            N < usize::BITS,
        ensures
            final(self).0 == val << N,
            final(self).wf(),
    {
        proof {
            lemma_shl_low_bits_zero(val, N);
        }
        self.0 = val << N;
    }
}

impl<const N: usize> Aligned for ShiftUsize<N> {
    open spec fn spec_alignment() -> usize {
        if N < usize::BITS {
            1usize << N
        } else {
            0
        }
    }

    open spec fn as_word(self) -> usize {
        self.0
    }

    open spec fn from_word(word: usize) -> Self {
        ShiftUsize(word)
    }

    open spec fn wf(self) -> bool {
        &&& N < usize::BITS
        &&& self.0 & (low_bits_mask(N as nat) as usize) == 0
    }

    proof fn lemma_aligned_word(self, k: nat) {
        lemma_shl_one_is_pow2(N);
        if k > N as nat {
            lemma_pow2_strictly_increases(N as nat, k);
        }
        lemma_mask_shrinks(self.0, k, N as nat);
    }

    proof fn lemma_from_as_word(self) {
    }

    fn alignment() -> (r: usize) {
        if N < usize::BITS as usize {
            1usize << N
        } else {
            0
        }
    }

    fn to_word(self) -> (r: usize) {
        self.0
    }

    fn of_word(word: usize) -> (r: Self) {
        ShiftUsize(word)
    }

    fn is_wf(&self) -> (r: bool) {
        if N < usize::BITS as usize {
            proof {
                lemma_usize_pow2_no_overflow(N as nat);
                lemma_usize_shl_is_mul(1, N);
            }
            let m = (1usize << N) - 1;
            proof {
                assert(m == low_bits_mask(N as nat) as usize);
            }
            self.0 & m == 0
        } else {
            false
        }
    }
}

/// An [`isize`] stored shifted left by `N` bits, the signed counterpart of
/// [`ShiftUsize`].
#[derive(Clone, Copy, PartialEq, Eq, PartialOrd, Ord, Debug, Default, Hash)]
pub struct ShiftIsize<const N: usize>(pub isize);

impl<const N: usize> ShiftIsize<N> {
    /// Creates a new value from an unshifted number.
    pub fn new(val: isize) -> (r: Self)
        requires
            N < usize::BITS,
        ensures
            r.0 == val << N,
            r.wf(),
    {
        proof {
            lemma_ishl_low_bits_zero(val, N);
        }
        ShiftIsize(val << N)
    }

    /// Returns the unshifted number.
    pub fn get(&self) -> (r: isize)
        requires
            N < usize::BITS,
        ensures
            r == self.0 >> N,
    {
        self.0 >> N
    }

    /// Sets the value by an unshifted number.
    pub fn set(&mut self, val: isize)
        requires
            N < usize::BITS,
        ensures
            final(self).0 == val << N,
            final(self).wf(),
    {
        proof {
            lemma_ishl_low_bits_zero(val, N);
        }
        self.0 = val << N;
    }
}

/// A signed left shift also keeps the shifted-out low bits zero.
proof fn lemma_ishl_low_bits_zero(val: isize, sh: usize)
    requires
        sh < usize::BITS,
    ensures
        ((val << sh) as usize) & (low_bits_mask(sh as nat) as usize) == 0,
{
    let m = low_bits_mask(sh as nat) as usize;
    lemma_usize_pow2_no_overflow(sh as nat);
    lemma_usize_shl_is_mul(1, sh);
    assert(m + 1 == 1usize << sh);
    assert(((val << sh) as usize) & m == 0) by (bit_vector)
        requires
            sh < usize::BITS,
            m + 1 == 1usize << sh,
    ;
}

impl<const N: usize> Aligned for ShiftIsize<N> {
    open spec fn spec_alignment() -> usize {
        if N < usize::BITS {
            1usize << N
        } else {
            0
        }
    }

    open spec fn as_word(self) -> usize {
        self.0 as usize
    }

    open spec fn from_word(word: usize) -> Self {
        ShiftIsize(word as isize)
    }

    open spec fn wf(self) -> bool {
        &&& N < usize::BITS
        &&& (self.0 as usize) & (low_bits_mask(N as nat) as usize) == 0
    }

    proof fn lemma_aligned_word(self, k: nat) {
        lemma_shl_one_is_pow2(N);
        if k > N as nat {
            lemma_pow2_strictly_increases(N as nat, k);
        }
        lemma_mask_shrinks(self.0 as usize, k, N as nat);
    }

    proof fn lemma_from_as_word(self) {
        let x = self.0;
        assert((x as usize) as isize == x) by (bit_vector);
    }

    fn alignment() -> (r: usize) {
        if N < usize::BITS as usize {
            1usize << N
        } else {
            0
        }
    }

    fn to_word(self) -> (r: usize) {
        self.0 as usize
    }

    fn of_word(word: usize) -> (r: Self) {
        ShiftIsize(word as isize)
    }

    fn is_wf(&self) -> (r: bool) {
        if N < usize::BITS as usize {
            proof {
                lemma_usize_pow2_no_overflow(N as nat);
                lemma_usize_shl_is_mul(1, N);
            }
            let m = (1usize << N) - 1;
            proof {
                assert(m == low_bits_mask(N as nat) as usize);
            }
            (self.0 as usize) & m == 0
        } else {
            false
        }
    }
}

/// An optional aligned address, stored in one word: the all-zero word is
/// the empty state, and any other legal word is a nonzero number shifted
/// left by `N` bits.  This is the one-word form of an optional pointer,
/// whose empty state needs no low bits at all.
#[derive(Clone, Copy, PartialEq, Eq, PartialOrd, Ord, Debug, Default, Hash)]
pub struct OptShiftUsize<const N: usize>(pub usize);

impl<const N: usize> OptShiftUsize<N> {
    /// The empty state.
    pub fn none() -> (r: Self)
        requires
            N < usize::BITS,
        ensures
            r.0 == 0,
            r.wf(),
    {
        proof {
            let m = low_bits_mask(N as nat) as usize;
            assert(0usize & m == 0) by (bit_vector);
        }
        OptShiftUsize(0)
    }

    /// A present value.  The unshifted number must survive the shift and
    /// stay distinguishable from the empty state, so it must be nonzero
    /// and small enough not to be truncated.
    pub fn some(val: usize) -> (r: Self)
        requires
            N < usize::BITS,
            val != 0,
            (val << N) >> N == val,
        ensures
            r.0 == val << N,
            r.0 != 0,
            r.wf(),
    {
        proof {
            lemma_shl_low_bits_zero(val, N);
            if val << N == 0 {
                lemma_usize_shr_is_div(0, N);
                lemma_pow2_pos(N as nat);
                assert(false);
            }
        }
        OptShiftUsize(val << N)
    }

    /// The stored number, or `None` in the empty state.
    pub fn get(&self) -> (r: Option<usize>)
        requires
            N < usize::BITS,
        ensures
            r == (if self.0 == 0 {
                None::<usize>
            } else {
                Some(self.0 >> N)
            }),
    {
        if self.0 == 0 {
            None
        } else {
            Some(self.0 >> N)
        }
    }
}

impl<const N: usize> Aligned for OptShiftUsize<N> {
    open spec fn spec_alignment() -> usize {
        if N < usize::BITS {
            1usize << N
        } else {
            0
        }
    }

    open spec fn as_word(self) -> usize {
        self.0
    }

    open spec fn from_word(word: usize) -> Self {
        OptShiftUsize(word)
    }

    open spec fn wf(self) -> bool {
        &&& N < usize::BITS
        &&& self.0 & (low_bits_mask(N as nat) as usize) == 0
    }

    proof fn lemma_aligned_word(self, k: nat) {
        lemma_shl_one_is_pow2(N);
        if k > N as nat {
            lemma_pow2_strictly_increases(N as nat, k);
        }
        lemma_mask_shrinks(self.0, k, N as nat);
    }

    proof fn lemma_from_as_word(self) {
    }

    fn alignment() -> (r: usize) {
        if N < usize::BITS as usize {
            1usize << N
        } else {
            0
        }
    }

    fn to_word(self) -> (r: usize) {
        self.0
    }

    fn of_word(word: usize) -> (r: Self) {
        OptShiftUsize(word)
    }

    fn is_wf(&self) -> (r: bool) {
        if N < usize::BITS as usize {
            proof {
                lemma_usize_pow2_no_overflow(N as nat);
                lemma_usize_shl_is_mul(1, N);
            }
            let m = (1usize << N) - 1;
            proof {
                assert(m == low_bits_mask(N as nat) as usize);
            }
            self.0 & m == 0
        } else {
            false
        }
    }
}

} // verus!
