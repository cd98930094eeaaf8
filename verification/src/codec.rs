//! The word-level codec: encoding a (tag, payload-word) pair into one
//! compact word and decoding it back.
//!
//! Encoding is a bitwise or of the payload word and the tag; it is only
//! meaningful when the two share no bits, which the alignment discipline of
//! [`crate::plan`] guarantees.  Decoding splits a word with the tag mask and
//! is total: it cannot fail on any word.

use crate::plan::{lemma_tag_bits_bounds, TagPlan};
use vstd::arithmetic::power2::pow2;
use vstd::bits::{lemma_usize_low_bits_mask_is_mod, lemma_usize_pow2_no_overflow,
    lemma_usize_shl_is_mul};
use vstd::prelude::*;

verus! {

/// The two-word shape of a payload-bearing variant before compaction: the
/// discriminant tag first, then the payload's bit pattern.
#[derive(Clone, Copy, PartialEq, Eq, Structural, Debug)]
pub struct PtrRepr(pub usize, pub usize);

/// The shape of a payload-less variant before compaction: only the tag is
/// meaningful.  No payload word is stored for such a variant, so none can
/// ever be read back; its compact word is the tag itself.
#[derive(Clone, Copy, PartialEq, Eq, Structural, Debug)]
pub struct UnitRepr(pub usize);

/// Encodes a tag and a payload word into one compact word.
///
/// The tag and the payload must occupy disjoint bits; the result then holds
/// both, and a bitwise or is the same word an address-style truncating
/// addition would produce, well defined even at the top of the address
/// space.
pub fn compact(value: PtrRepr) -> (r: usize)
    requires
        value.0 & value.1 == 0,
    ensures
        r == (value.1 | value.0),
{
    value.1 | value.0
}

/// Decodes a compact word: the tag is the masked low part, the payload is
/// the rest.  Total: every word splits, so decoding cannot fail.
pub fn extract(value: usize, mask: usize) -> (r: PtrRepr)
    ensures
        r.0 == value & mask,
        r.1 == value & !mask,
{
    PtrRepr(value & mask, value & !mask)
}

/// Round-trip law of the word-level codec: whenever the tag fits in the mask
/// and the payload's masked bits are zero, decoding the encoded word returns
/// exactly the tag and the payload.
pub proof fn lemma_codec_round_trip(tag: usize, payload: usize, mask: usize)
    by (bit_vector)
    requires
        tag & !mask == 0,
        payload & mask == 0,
    ensures
        tag & payload == 0,
        (payload | tag) & mask == tag,
        (payload | tag) & !mask == payload,
{
}

/// Unit-variant law: a payload-less variant ([`UnitRepr`]) is encoded as
/// the bare tag, and decoding that word returns the tag with an all-zero
/// payload part, so no stored payload bits are ever consulted.
pub proof fn lemma_unit_round_trip(value: UnitRepr, mask: usize)
    requires
        value.0 & !mask == 0,
    ensures
        value.0 & mask == value.0,
{
    let tag = value.0;
    assert(tag & !mask == 0 ==> tag & mask == tag) by (bit_vector);
}

/// The keystone of the system: under a cleanly registered plan, every
/// in-range tag and every payload aligned to the plan's demand satisfy
/// the codec's precondition, and the compact word splits back into
/// exactly that tag and payload.  A registered union can therefore never
/// fail at runtime.
pub proof fn lemma_plan_codec_sound(plan: TagPlan, tag: usize, payload: usize)
    requires
        plan.wf(),
        tag < plan.variant_count,
        payload as nat % pow2(plan.tag_bit_count as nat) == 0,
    ensures
        tag & !plan.tag_mask == 0,
        payload & plan.tag_mask == 0,
        tag & payload == 0,
        (payload | tag) & plan.tag_mask == tag,
        (payload | tag) & !plan.tag_mask == payload,
{
    let k = plan.tag_bit_count;
    let m = plan.tag_mask;
    lemma_tag_bits_bounds(plan.variant_count as nat);
    lemma_usize_pow2_no_overflow(k as nat);
    lemma_usize_shl_is_mul(1, k);
    assert(m + 1 == 1usize << k);
    assert(tag <= m);
    assert(tag & !m == 0 && tag & m == tag) by (bit_vector)
        requires
            k < usize::BITS,
            m + 1 == 1usize << k,
            tag <= m,
    ;
    lemma_usize_low_bits_mask_is_mod(payload, k as nat);
    lemma_codec_round_trip(tag, payload, m);
}

} // verus!
