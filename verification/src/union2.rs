//! The crate's worked tagged union: two variants, each carrying one
//! aligned payload, compacted into one word with a one-bit tag.
//!
//! `Union2` is generic over its two payload representations, so one
//! implementation and one proof cover every pairing of the crate's payload
//! types: plain aligned words, pre-shifted numbers, and the payload-less
//! [`Unit`].  The round-trip obligation of [`Compactable`] is discharged
//! here once, from the alignment witnesses alone.

use crate::aligned::Aligned;
use crate::convert::Compactable;
use crate::plan::RegistrationError;
use vstd::arithmetic::power2::lemma2_to64;
use vstd::bits::lemma_low_bits_mask_values;
use vstd::prelude::*;

verus! {

/// A tagged union of exactly two single-payload variants.
#[derive(Clone, Copy, PartialEq, Eq, Debug)]
pub enum Union2<A, B> {
    /// The first variant, ordinal 0.
    A(A),
    /// The second variant, ordinal 1.
    B(B),
}

impl<A: Aligned, B: Aligned> Compactable for Union2<A, B> {
    open spec fn spec_mask() -> usize {
        1
    }

    open spec fn spec_word(self) -> usize {
        match self {
            Union2::A(a) => a.as_word(),
            Union2::B(b) => b.as_word() | 1,
        }
    }

    open spec fn spec_value(word: usize) -> Self {
        if word & 1 == 0 {
            Union2::A(A::from_word(word))
        } else {
            Union2::B(B::from_word(word & !1))
        }
    }

    open spec fn wf(self) -> bool {
        match self {
            Union2::A(a) => A::spec_alignment() >= 2 && a.wf(),
            Union2::B(b) => B::spec_alignment() >= 2 && b.wf(),
        }
    }

    proof fn lemma_extract_compact(self) {
        lemma_low_bits_mask_values();
        lemma2_to64();
        match self {
            Union2::A(a) => {
                a.lemma_aligned_word(1);
                a.lemma_from_as_word();
            },
            Union2::B(b) => {
                b.lemma_aligned_word(1);
                b.lemma_from_as_word();
                let w = b.as_word();
                assert(w & 1 == 0 ==> ((w | 1) & 1 == 1) && ((w | 1) & !1usize == w))
                    by (bit_vector);
            },
        }
    }

    fn mask() -> (r: usize) {
        1
    }

    fn compact_inner(self) -> (r: usize) {
        match self {
            Union2::A(a) => a.to_word(),
            Union2::B(b) => b.to_word() | 1,
        }
    }

    fn extract_inner(word: usize) -> (r: Self) {
        proof {
            let v = choose|v: Self| v.wf() && v.spec_word() == word;
            v.lemma_extract_compact();
        }
        if word & 1 == 0 {
            Union2::A(A::of_word(word))
        } else {
            Union2::B(B::of_word(word & !1))
        }
    }

    open spec fn spec_gate(self) -> Option<RegistrationError> {
        match self {
            Union2::A(a) => if A::spec_alignment() < 2 {
                Some(RegistrationError::InsufficientAlignment {
                    variant: 0,
                    required: 2,
                    found: A::spec_alignment(),
                })
            } else if !a.wf() {
                Some(RegistrationError::MalformedPayload { variant: 0 })
            } else {
                None
            },
            Union2::B(b) => if B::spec_alignment() < 2 {
                Some(RegistrationError::InsufficientAlignment {
                    variant: 1,
                    required: 2,
                    found: B::spec_alignment(),
                })
            } else if !b.wf() {
                Some(RegistrationError::MalformedPayload { variant: 1 })
            } else {
                None
            },
        }
    }

    proof fn lemma_gate(self) {
    }

    fn gate(&self) -> (r: Option<RegistrationError>) {
        match self {
            Union2::A(a) => {
                let found = A::alignment();
                if found < 2 {
                    Some(RegistrationError::InsufficientAlignment { variant: 0, required: 2, found })
                } else if !a.is_wf() {
                    Some(RegistrationError::MalformedPayload { variant: 0 })
                } else {
                    None
                }
            },
            Union2::B(b) => {
                let found = B::alignment();
                if found < 2 {
                    Some(RegistrationError::InsufficientAlignment { variant: 1, required: 2, found })
                } else if !b.is_wf() {
                    Some(RegistrationError::MalformedPayload { variant: 1 })
                } else {
                    None
                }
            },
        }
    }
}

/// Unit soundness, stated for any mix of a payload-less first variant and
/// a payload-bearing second one: both variants round-trip, and the
/// payload-less variant's compact word is its tag alone, so no payload
/// bits of it are ever read back.
pub proof fn lemma_unit_mix_round_trip<B: Aligned>(u: Union2<crate::utils::Unit, B>)
    requires
        u.wf(),
    ensures
        Union2::<crate::utils::Unit, B>::spec_value(u.spec_word()) == u,
        u is A ==> u.spec_word() == 0,
{
    u.lemma_extract_compact();
}

} // verus!

