//! A worked four-variant union: the tag takes two bits, so every payload
//! must guarantee four-byte alignment.
//!
//! Next to [`crate::union2::Union2`] this shows the codec with a wider
//! tag: the same encoding discipline, one proof for every choice of the
//! four payload representations.

use crate::aligned::Aligned;
use crate::convert::Compactable;
use crate::plan::RegistrationError;
use vstd::arithmetic::power2::lemma2_to64;
use vstd::bits::lemma_low_bits_mask_values;
use vstd::prelude::*;

verus! {

/// A tagged union of exactly four single-payload variants.
#[derive(Clone, Copy, PartialEq, Eq, Debug)]
pub enum Union4<A, B, C, D> {
    /// Ordinal 0.
    A(A),
    /// Ordinal 1.
    B(B),
    /// Ordinal 2.
    C(C),
    /// Ordinal 3.
    D(D),
}

impl<A: Aligned, B: Aligned, C: Aligned, D: Aligned> Compactable for Union4<A, B, C, D> {
    open spec fn spec_mask() -> usize {
        3
    }

    open spec fn spec_word(self) -> usize {
        match self {
            Union4::A(a) => a.as_word(),
            Union4::B(b) => b.as_word() | 1,
            Union4::C(c) => c.as_word() | 2,
            Union4::D(d) => d.as_word() | 3,
        }
    }

    open spec fn spec_value(word: usize) -> Self {
        let payload = word & !3usize;
        if word & 3 == 0 {
            Union4::A(A::from_word(payload))
        } else if word & 3 == 1 {
            Union4::B(B::from_word(payload))
        } else if word & 3 == 2 {
            Union4::C(C::from_word(payload))
        } else {
            Union4::D(D::from_word(payload))
        }
    }

    open spec fn wf(self) -> bool {
        match self {
            Union4::A(a) => A::spec_alignment() >= 4 && a.wf(),
            Union4::B(b) => B::spec_alignment() >= 4 && b.wf(),
            Union4::C(c) => C::spec_alignment() >= 4 && c.wf(),
            Union4::D(d) => D::spec_alignment() >= 4 && d.wf(),
        }
    }

    proof fn lemma_extract_compact(self) {
        lemma_low_bits_mask_values();
        lemma2_to64();
        match self {
            Union4::A(a) => {
                a.lemma_aligned_word(2);
                a.lemma_from_as_word();
                lemma_tag_in_low_bits(a.as_word(), 0);
            },
            Union4::B(b) => {
                b.lemma_aligned_word(2);
                b.lemma_from_as_word();
                lemma_tag_in_low_bits(b.as_word(), 1);
            },
            Union4::C(c) => {
                c.lemma_aligned_word(2);
                c.lemma_from_as_word();
                lemma_tag_in_low_bits(c.as_word(), 2);
            },
            Union4::D(d) => {
                d.lemma_aligned_word(2);
                d.lemma_from_as_word();
                lemma_tag_in_low_bits(d.as_word(), 3);
            },
        }
    }

    fn mask() -> (r: usize) {
        3
    }

    fn compact_inner(self) -> (r: usize) {
        match self {
            Union4::A(a) => a.to_word(),
            Union4::B(b) => b.to_word() | 1,
            Union4::C(c) => c.to_word() | 2,
            Union4::D(d) => d.to_word() | 3,
        }
    }

    fn extract_inner(word: usize) -> (r: Self) {
        proof {
            let v = choose|v: Self| v.wf() && v.spec_word() == word;
            v.lemma_extract_compact();
        }
        let tag = word & 3;
        let payload = word & !3;
        if tag == 0 {
            Union4::A(A::of_word(payload))
        } else if tag == 1 {
            Union4::B(B::of_word(payload))
        } else if tag == 2 {
            Union4::C(C::of_word(payload))
        } else {
            Union4::D(D::of_word(payload))
        }
    }

    open spec fn spec_gate(self) -> Option<RegistrationError> {
        match self {
            Union4::A(a) => spec_gate_arm(0, A::spec_alignment(), a.wf()),
            Union4::B(b) => spec_gate_arm(1, B::spec_alignment(), b.wf()),
            Union4::C(c) => spec_gate_arm(2, C::spec_alignment(), c.wf()),
            Union4::D(d) => spec_gate_arm(3, D::spec_alignment(), d.wf()),
        }
    }

    proof fn lemma_gate(self) {
    }

    fn gate(&self) -> (r: Option<RegistrationError>) {
        match self {
            Union4::A(a) => gate_arm(0, A::alignment(), a.is_wf()),
            Union4::B(b) => gate_arm(1, B::alignment(), b.is_wf()),
            Union4::C(c) => gate_arm(2, C::alignment(), c.is_wf()),
            Union4::D(d) => gate_arm(3, D::alignment(), d.is_wf()),
        }
    }
}

/// The deferred gate's verdict on one active variant: its alignment must
/// reach the two-bit tag's demand and its payload must be legal.
pub open spec fn spec_gate_arm(
    ordinal: usize,
    alignment: usize,
    payload_wf: bool,
) -> Option<RegistrationError> {
    if alignment < 4 {
        Some(RegistrationError::InsufficientAlignment {
            variant: ordinal,
            required: 4,
            found: alignment,
        })
    } else if !payload_wf {
        Some(RegistrationError::MalformedPayload { variant: ordinal })
    } else {
        None
    }
}

fn gate_arm(ordinal: usize, alignment: usize, payload_wf: bool) -> (r: Option<RegistrationError>)
    ensures
        r == spec_gate_arm(ordinal, alignment, payload_wf),
{
    if alignment < 4 {
        Some(RegistrationError::InsufficientAlignment {
            variant: ordinal,
            required: 4,
            found: alignment,
        })
    } else if !payload_wf {
        Some(RegistrationError::MalformedPayload { variant: ordinal })
    } else {
        None
    }
}

/// With the payload's low two bits zero, a two-bit tag lands in them and
/// splits back out exactly.
proof fn lemma_tag_in_low_bits(payload: usize, tag: usize)
    by (bit_vector)
    requires
        payload & 3 == 0,
        tag <= 3,
    ensures
        (payload | tag) & 3 == tag,
        (payload | tag) & !3usize == payload,
        payload & !3usize == payload,
{
}

} // verus!
