use enum_ptr::convert::{compact, extract, try_compact};
use enum_ptr::plan::{PayloadKind, RegistrationError, Variant, VariantTable};
use enum_ptr::union2::Union2;
use enum_ptr::utils::{ShiftIsize, ShiftUsize, Unit};

// Scenario: union { A(ref to 8-byte-aligned i64), B(ref to 8-byte-aligned
// i64) }.  Two variants give one tag bit and mask 1; both variants
// round-trip through the compact word.
#[test]
fn scenario_two_aligned_refs() {
    let table = VariantTable {
        variants: vec![
            Variant {
                field_count: 1,
                payload_words: 1,
                explicit_discriminant: false,
                kind: PayloadKind::Pointerlike,
                alignment: 8,
            },
            Variant {
                field_count: 1,
                payload_words: 1,
                explicit_discriminant: false,
                kind: PayloadKind::Pointerlike,
                alignment: 8,
            },
        ],
    };
    let plan = table.register().unwrap();
    assert_eq!(plan.tag_bit_count, 1);
    assert_eq!(plan.tag_mask, 1);

    let a: Union2<ShiftIsize<3>, ShiftIsize<3>> = Union2::A(ShiftIsize::new(42));
    assert_eq!(extract(compact(a)), a);

    let b: Union2<ShiftIsize<3>, ShiftIsize<3>> = Union2::B(ShiftIsize::new(7));
    assert_eq!(extract(compact(b)), b);
}

// Scenario: union { A (Unit), B(ref to i32) }: construct(A) comes back as
// A, construct(B(&9)) comes back as B(&9).
#[test]
fn scenario_unit_and_payload() {
    let a: Union2<Unit, ShiftIsize<2>> = Union2::A(Unit::new());
    assert_eq!(extract(compact(a)), a);

    let b: Union2<Unit, ShiftIsize<2>> = Union2::B(ShiftIsize::new(9));
    assert_eq!(extract(compact(b)), b);
}

// A reference obtained from a projection lives only as long as the
// borrow of the compact value; reading through it before the value is
// consumed observes the owned payload.
#[test]
fn projection_reads_before_consumption() {
    let b: Union2<Unit, ShiftIsize<2>> = Union2::B(ShiftIsize::new(-5));
    let c = compact(b);
    let seen = match c.borrow() {
        Union2::B(inner) => inner,
        _ => unreachable!(),
    };
    assert_eq!(seen, -5);
    let back = c.extract();
    assert_eq!(back, b);
}

// The deferred form of the alignment gate, for a union type only known
// generically: models enum Foo<'a, 'b> { A(&'a i32), B(&'b i8) }.  The
// i8 payload guarantees alignment 1, one short of the one-bit tag's
// demand, so constructing any B value fails, with B named and the
// alignments reported; A values, whose payload guarantees 4, still
// construct and round-trip.
#[test]
fn deferred_gate_names_underaligned_variant() {
    type Foo = Union2<ShiftUsize<2>, ShiftUsize<0>>;

    let a: Foo = Union2::A(ShiftUsize::new(42));
    assert_eq!(try_compact(a).ok().unwrap().extract(), a);

    let b: Foo = Union2::B(ShiftUsize::new(43));
    match try_compact(b) {
        Err((handed_back, why)) => {
            assert_eq!(handed_back, b);
            assert_eq!(
                why,
                RegistrationError::InsufficientAlignment {
                    variant: 1,
                    required: 2,
                    found: 1,
                }
            );
        },
        Ok(_) => panic!("an under-aligned variant must not compact"),
    }

    // substituting a sufficiently aligned payload makes B succeed too
    type Fixed = Union2<ShiftUsize<2>, ShiftUsize<2>>;
    let b: Fixed = Union2::B(ShiftUsize::new(43));
    assert_eq!(try_compact(b).ok().unwrap().extract(), b);
}
