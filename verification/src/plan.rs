//! Registration: validating a tagged union's variant table and deriving its
//! tag plan.
//!
//! A union is described once, as a [`VariantTable`] of [`Variant`]
//! descriptors in declaration order (the ordinal of a variant is its
//! discriminant).  [`VariantTable::register`] checks the structural rules a
//! compactable union must obey, derives the [`TagPlan`] from the variant
//! count, and holds every payload-bearing variant's alignment witness
//! against the alignment the tag needs.  Each failure names the offending
//! variant; a table that registers cleanly can never fail at runtime, since
//! the codec itself is total once its precondition holds.

use vstd::arithmetic::power2::{lemma2_to64, lemma2_to64_rest, lemma_pow2_strictly_increases,
    lemma_pow2_unfold, lemma_pow2_pos, pow2};
use vstd::bits::low_bits_mask;
use vstd::prelude::*;

verus! {

/// How a variant's single payload word is represented.
#[derive(Clone, Copy, PartialEq, Eq, Structural, Debug)]
pub enum PayloadKind {
    /// An always-valid aligned address (a plain reference or an owning
    /// heap handle).
    Pointerlike,
    /// An aligned address or an all-zero "empty" pattern.
    OptionalPointerlike,
    /// A number stored so that its low bits are zero by construction.
    CustomWord,
    /// No payload at all; the alignment constraint is vacuous.
    Unit,
}

/// One variant of a tagged union, as the registration step sees it.
#[derive(Clone, Copy, PartialEq, Eq, Structural, Debug)]
pub struct Variant {
    /// Payload fields declared on the variant.
    pub field_count: usize,
    /// Machine words the declared payload occupies (0 when there is none).
    pub payload_words: usize,
    /// Whether the declaration pins an explicit discriminant value.
    pub explicit_discriminant: bool,
    /// How the payload word is represented.
    pub kind: PayloadKind,
    /// The alignment witness: every legal bit pattern of this payload is a
    /// multiple of this many bytes.
    pub alignment: usize,
}

/// The ordered variant descriptors of one tagged union.
pub struct VariantTable {
    pub variants: Vec<Variant>,
}

impl View for VariantTable {
    type V = Seq<Variant>;

    open spec fn view(&self) -> Seq<Variant> {
        self.variants@
    }
}

/// The tag layout derived from a union's variant count.
#[derive(Clone, Copy, PartialEq, Eq, Structural, Debug)]
pub struct TagPlan {
    /// How many variants the plan was made for.
    pub variant_count: usize,
    /// Bits the tag occupies: the ceiling of log2 of the variant count.
    pub tag_bit_count: usize,
    /// Mask selecting the tag: the low `tag_bit_count` bits.
    pub tag_mask: usize,
    /// The alignment every payload must guarantee: `1 << tag_bit_count`.
    pub min_required_alignment: usize,
}

/// Why a variant table was rejected at registration.
#[derive(Clone, Copy, PartialEq, Eq, Structural, Debug)]
pub enum RegistrationError {
    /// The table holds no variant at all.
    NoVariants,
    /// The named variant declares more than one payload field.
    TooManyFields { variant: usize },
    /// The named variant pins an explicit discriminant value.
    ExplicitDiscriminant { variant: usize },
    /// The named variant's payload is wider than one machine word, so the
    /// union cannot be brought down to one word.
    PayloadTooWide { variant: usize },
    /// Every variant is payload-less: the union is already one word and
    /// there is nothing to compact.
    NothingToCompact,
    /// The named variant's payload guarantees less alignment than the tag
    /// needs; compacting this union would corrupt the payload.
    InsufficientAlignment { variant: usize, required: usize, found: usize },
    /// The named variant's payload value broke its representation's
    /// guarantee: its low bits were not zero.  Such a value can only come
    /// from a mutator that broke the payload type's contract, and only
    /// the deferred gate can see it.
    MalformedPayload { variant: usize },
}

/// The number of tag bits a union of `count` variants needs: the smallest
/// `k` with `count <= 2^k`.
pub open spec fn spec_tag_bits(count: nat) -> nat
    decreases count,
{
    if count <= 1 {
        0
    } else {
        1 + spec_tag_bits((count + 1) / 2)
    }
}

/// The alignment every payload of a `count`-variant union must guarantee.
pub open spec fn spec_min_alignment(count: nat) -> nat {
    pow2(spec_tag_bits(count))
}

/// The plan a `count`-variant union registers to.
pub open spec fn spec_plan_for(count: nat) -> TagPlan {
    TagPlan {
        variant_count: count as usize,
        tag_bit_count: spec_tag_bits(count) as usize,
        tag_mask: low_bits_mask(spec_tag_bits(count)) as usize,
        min_required_alignment: pow2(spec_tag_bits(count)) as usize,
    }
}

/// The structural rule the given variant breaks, if any.
pub open spec fn spec_structural_error(v: Variant, ordinal: usize) -> Option<RegistrationError> {
    if v.field_count > 1 {
        Some(RegistrationError::TooManyFields { variant: ordinal })
    } else if v.explicit_discriminant {
        Some(RegistrationError::ExplicitDiscriminant { variant: ordinal })
    } else if v.payload_words > 1 {
        Some(RegistrationError::PayloadTooWide { variant: ordinal })
    } else {
        None
    }
}

/// The first structural offence at or after index `i`, scanning in
/// declaration order.
pub open spec fn spec_first_structural_error(s: Seq<Variant>, i: int) -> Option<RegistrationError>
    decreases s.len() - i,
{
    if i < 0 || i >= s.len() {
        None
    } else {
        match spec_structural_error(s[i], i as usize) {
            Some(e) => Some(e),
            None => spec_first_structural_error(s, i + 1),
        }
    }
}

/// The structural verdict on a whole table: its first offence, or the
/// demand that it not be empty.
pub open spec fn spec_validate(s: Seq<Variant>) -> Option<RegistrationError> {
    if s.len() == 0 {
        Some(RegistrationError::NoVariants)
    } else {
        spec_first_structural_error(s, 0)
    }
}

/// Whether some variant actually carries a one-word payload; without one
/// the union is already a single word.
pub open spec fn spec_has_payload(s: Seq<Variant>) -> bool {
    exists|j: int| 0 <= j < s.len() && (#[trigger] s[j]).payload_words == 1
}

/// Whether the variant's alignment witness satisfies the plan's demand.
/// Payload-less variants pass vacuously.
pub open spec fn spec_alignment_ok(v: Variant, min_required: usize) -> bool {
    v.kind == PayloadKind::Unit || v.alignment >= min_required
}

/// The first under-aligned payload-bearing variant at or after index `i`.
pub open spec fn spec_first_alignment_error(
    s: Seq<Variant>,
    min_required: usize,
    i: int,
) -> Option<RegistrationError>
    decreases s.len() - i,
{
    if i < 0 || i >= s.len() {
        None
    } else if !spec_alignment_ok(s[i], min_required) {
        Some(RegistrationError::InsufficientAlignment {
            variant: i as usize,
            required: min_required,
            found: s[i].alignment,
        })
    } else {
        spec_first_alignment_error(s, min_required, i + 1)
    }
}

/// What registration returns on the given table: its first failure in
/// checking order, or the derived plan.
pub open spec fn spec_register(s: Seq<Variant>) -> Result<TagPlan, RegistrationError> {
    match spec_validate(s) {
        Some(e) => Err(e),
        None => if !spec_has_payload(s) {
            Err(RegistrationError::NothingToCompact)
        } else {
            match spec_first_alignment_error(
                s,
                spec_min_alignment(s.len() as nat) as usize,
                0,
            ) {
                Some(e) => Err(e),
                None => Ok(spec_plan_for(s.len() as nat)),
            }
        },
    }
}

/// A table that registration accepts, stated directly: non-empty, every
/// variant structurally clean, at least one real payload, and every
/// payload-bearing variant aligned for the tag.
pub open spec fn spec_table_ok(s: Seq<Variant>) -> bool {
    &&& s.len() >= 1
    &&& forall|i: int|
        0 <= i < s.len() ==> spec_structural_error(#[trigger] s[i], i as usize) is None
    &&& spec_has_payload(s)
    &&& forall|i: int|
        0 <= i < s.len() ==> spec_alignment_ok(
            #[trigger] s[i],
            spec_min_alignment(s.len() as nat) as usize,
        )
}

proof fn lemma_first_structural_none_iff(s: Seq<Variant>, i: int)
    requires
        0 <= i <= s.len(),
    ensures
        spec_first_structural_error(s, i) is None <==> forall|j: int|
            i <= j < s.len() ==> spec_structural_error(#[trigger] s[j], j as usize) is None,
    decreases s.len() - i,
{
    if i < s.len() {
        lemma_first_structural_none_iff(s, i + 1);
    }
}

proof fn lemma_first_alignment_none_iff(s: Seq<Variant>, min_required: usize, i: int)
    requires
        0 <= i <= s.len(),
    ensures
        spec_first_alignment_error(s, min_required, i) is None <==> forall|j: int|
            i <= j < s.len() ==> spec_alignment_ok(#[trigger] s[j], min_required),
    decreases s.len() - i,
{
    if i < s.len() {
        lemma_first_alignment_none_iff(s, min_required, i + 1);
    }
}

/// The alignment-gate law: registration succeeds exactly on the tables
/// [`spec_table_ok`] describes.  In particular, a table with an
/// under-aligned payload fails, and raising that payload's alignment to the
/// plan's demand (everything else being in order) makes it succeed.
pub proof fn lemma_register_ok_iff(s: Seq<Variant>)
    ensures
        spec_register(s) is Ok <==> spec_table_ok(s),
{
    if s.len() > 0 {
        lemma_first_structural_none_iff(s, 0);
        lemma_first_alignment_none_iff(s, spec_min_alignment(s.len() as nat) as usize, 0);
    }
}

/// When registration reports insufficient alignment, the named variant is
/// the first payload-bearing one that is truly under-aligned, and the
/// reported demand is the plan's.
pub proof fn lemma_insufficient_alignment_names_first(
    s: Seq<Variant>,
    min_required: usize,
    i: int,
    variant: usize,
    required: usize,
    found: usize,
)
    requires
        s.len() <= usize::MAX,
        0 <= i <= s.len(),
        spec_first_alignment_error(s, min_required, i) == Some(
            RegistrationError::InsufficientAlignment { variant, required, found },
        ),
    ensures
        i <= variant < s.len(),
        !spec_alignment_ok(s[variant as int], min_required),
        required == min_required,
        found == s[variant as int].alignment,
        forall|j: int| i <= j < variant ==> spec_alignment_ok(#[trigger] s[j], min_required),
    decreases s.len() - i,
{
    if i < s.len() && spec_alignment_ok(s[i], min_required) {
        lemma_insufficient_alignment_names_first(s, min_required, i + 1, variant, required, found);
    }
}

/// `spec_tag_bits` is what it claims: `count` fits in that many tag bits,
/// and, past one variant, in no fewer.
pub proof fn lemma_tag_bits_bounds(count: nat)
    requires
        count >= 1,
    ensures
        count <= pow2(spec_tag_bits(count)),
        count > 1 ==> pow2((spec_tag_bits(count) - 1) as nat) < count,
    decreases count,
{
    if count <= 1 {
        lemma2_to64();
    } else {
        let half = (count + 1) / 2;
        lemma_tag_bits_bounds(half);
        lemma_pow2_unfold(spec_tag_bits(count));
        if half > 1 {
            lemma_pow2_unfold((spec_tag_bits(count) - 1) as nat);
        } else {
            lemma2_to64();
        }
    }
}

proof fn lemma_tag_bits_unique(count: nat, k: nat)
    requires
        count >= 1,
        count <= pow2(k),
        k > 0 ==> pow2((k - 1) as nat) < count,
    ensures
        spec_tag_bits(count) == k,
{
    let b = spec_tag_bits(count);
    lemma_tag_bits_bounds(count);
    if b < k {
        // then pow2(b) <= pow2(k - 1) < count, against count <= pow2(b)
        if b < k - 1 {
            lemma_pow2_strictly_increases(b, (k - 1) as nat);
        }
        assert(count > 1) by {
            if count <= 1 {
                lemma_pow2_pos((k - 1) as nat);
            }
        };
        assert(false);
    } else if k < b {
        // symmetrically, pow2(k) <= pow2(b - 1) < count <= pow2(k)
        if k < b - 1 {
            lemma_pow2_strictly_increases(k, (b - 1) as nat);
        }
        assert(count > 1) by {
            if count <= 1 {
                lemma_pow2_pos((b - 1) as nat);
            }
        };
        assert(false);
    }
}

impl TagPlan {
    /// A plan is well formed when its fields are exactly the layout its
    /// variant count derives.
    pub open spec fn wf(self) -> bool {
        &&& self.variant_count >= 1
        &&& (self.tag_bit_count as nat) < usize::BITS as nat
        &&& self.tag_bit_count == spec_tag_bits(self.variant_count as nat)
        &&& self.tag_mask == low_bits_mask(self.tag_bit_count as nat)
        &&& self.min_required_alignment == pow2(self.tag_bit_count as nat)
    }
}

/// Structural validation alone: each variant declares at most one payload
/// field, no explicit discriminants, no payload wider than one word.  The
/// error names the first offending variant in declaration order.
pub fn validate_input(table: &VariantTable) -> (r: Result<(), RegistrationError>)
    ensures
        (match spec_validate(table@) {
            Some(e) => r == Err::<(), RegistrationError>(e),
            None => r is Ok,
        }),
{
    let n = table.variants.len();
    if n == 0 {
        return Err(RegistrationError::NoVariants);
    }
    let mut i: usize = 0;
    while i < n
        invariant
            0 <= i <= n,
            n == table@.len(),
            spec_first_structural_error(table@, 0) == spec_first_structural_error(table@, i as int),
        decreases n - i,
    {
        let v = &table.variants[i];
        if v.field_count > 1 {
            return Err(RegistrationError::TooManyFields { variant: i });
        }
        if v.explicit_discriminant {
            return Err(RegistrationError::ExplicitDiscriminant { variant: i });
        }
        if v.payload_words > 1 {
            return Err(RegistrationError::PayloadTooWide { variant: i });
        }
        i = i + 1;
    }
    Ok(())
}

impl VariantTable {
    /// Registers the union this table describes: validates it and derives
    /// its tag plan, or reports the first failure, naming the offending
    /// variant.  The one machine limit: the variant count must leave at
    /// least one payload bit free in the word.
    pub fn register(&self) -> (r: Result<TagPlan, RegistrationError>)
        requires
            self@.len() <= usize::MAX / 2 + 1,
        ensures
            r == spec_register(self@),
            r matches Ok(plan) ==> plan.wf() && plan.variant_count == self@.len(),
    {
        if let Err(e) = validate_input(self) {
            return Err(e);
        }
        proof {
            assert(spec_validate(self@) is None);
        }
        let n = self.variants.len();

        let mut has_payload = false;
        let mut i: usize = 0;
        while i < n
            invariant
                0 <= i <= n,
                n == self@.len(),
                spec_validate(self@) is None,
                has_payload <==> exists|j: int|
                    0 <= j < i && (#[trigger] self@[j]).payload_words == 1,
            decreases n - i,
        {
            if self.variants[i].payload_words == 1 {
                has_payload = true;
            }
            i = i + 1;
        }
        if !has_payload {
            return Err(RegistrationError::NothingToCompact);
        }

        let ghost max_cap = pow2((usize::BITS - 1) as nat);
        proof {
            lemma_pow2_word_half();
            lemma2_to64();
        }
        let mut bits: usize = 0;
        let mut cap: usize = 1;
        while cap < n
            invariant
                n == self@.len(),
                1 <= n <= usize::MAX / 2 + 1,
                spec_validate(self@) is None,
                spec_has_payload(self@),
                1 <= cap,
                cap == pow2(bits as nat),
                cap <= max_cap,
                max_cap == pow2((usize::BITS - 1) as nat),
                max_cap == usize::MAX / 2 + 1,
                bits > 0 ==> pow2((bits - 1) as nat) < n,
            decreases 2 * n - cap,
        {
            proof {
                // cap < n <= 2^(BITS-1) forces bits < BITS-1, so the
                // doubled capacity still fits in the word
                if bits as nat >= ((usize::BITS - 1) as nat) {
                    if bits as nat > ((usize::BITS - 1) as nat) {
                        lemma_pow2_strictly_increases((usize::BITS - 1) as nat, bits as nat);
                    }
                    assert(false);
                }
                lemma_pow2_unfold((bits + 1) as nat);
                if ((bits + 1) as nat) < ((usize::BITS - 1) as nat) {
                    lemma_pow2_strictly_increases((bits + 1) as nat, (usize::BITS - 1) as nat);
                }
            }
            cap = cap * 2;
            bits = bits + 1;
        }
        let min_required = cap;
        let tag_mask = cap - 1;
        proof {
            // at exit cap is the least power of two reaching n, so bits
            // is exactly the tag width the variant count needs
            lemma_tag_bits_unique(n as nat, bits as nat);
            assert((bits as nat) < (usize::BITS as nat)) by {
                if bits as nat >= (usize::BITS as nat) {
                    lemma_pow2_strictly_increases((usize::BITS - 1) as nat, bits as nat);
                }
            };
        }
        let plan = TagPlan {
            variant_count: n,
            tag_bit_count: bits,
            tag_mask,
            min_required_alignment: min_required,
        };
        proof {
            assert(plan == spec_plan_for(n as nat));
            assert(plan.wf());
            assert(min_required == spec_min_alignment(n as nat) as usize);
        }

        let mut i: usize = 0;
        while i < n
            invariant
                0 <= i <= n,
                n == self@.len(),
                spec_validate(self@) is None,
                spec_has_payload(self@),
                plan == spec_plan_for(n as nat),
                plan.wf(),
                min_required == spec_min_alignment(n as nat) as usize,
                spec_first_alignment_error(self@, min_required, 0)
                    == spec_first_alignment_error(self@, min_required, i as int),
            decreases n - i,
        {
            let v = &self.variants[i];
            let unit = v.kind == PayloadKind::Unit;
            if !unit && v.alignment < min_required {
                return Err(RegistrationError::InsufficientAlignment {
                    variant: i,
                    required: min_required,
                    found: v.alignment,
                });
            }
            i = i + 1;
        }
        Ok(plan)
    }
}

/// Half the word's range, `2^(BITS-1)`, written as an arithmetic bound.
proof fn lemma_pow2_word_half()
    ensures
        pow2((usize::BITS - 1) as nat) == usize::MAX / 2 + 1,
{
    lemma2_to64();
    lemma2_to64_rest();
    if usize::BITS == 32 {
        assert(pow2(31) == 0x80000000);
    } else {
        assert(pow2(63) == 0x8000000000000000);
    }
}

} // verus!

