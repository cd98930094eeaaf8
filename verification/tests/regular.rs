use enum_ptr::codec::{compact, extract, PtrRepr};
use enum_ptr::plan::{PayloadKind, Variant, VariantTable};

fn payload_variant(kind: PayloadKind, alignment: usize) -> Variant {
    Variant {
        field_count: 1,
        payload_words: 1,
        explicit_discriminant: false,
        kind,
        alignment,
    }
}

fn bare_unit_variant() -> Variant {
    Variant {
        field_count: 0,
        payload_words: 0,
        explicit_discriminant: false,
        kind: PayloadKind::Unit,
        alignment: usize::MAX,
    }
}

// The union under test models:
// enum Foo<'a, 'b> { A(&'a u64), B { ptr: &'b i64 }, C(Option<Box<i64>>), D(), E {}, F }
#[test]
fn all() {
    let table = VariantTable {
        variants: vec![
            payload_variant(PayloadKind::Pointerlike, 8),
            payload_variant(PayloadKind::Pointerlike, 8),
            payload_variant(PayloadKind::OptionalPointerlike, 8),
            bare_unit_variant(),
            bare_unit_variant(),
            bare_unit_variant(),
        ],
    };
    let plan = table.register().unwrap();
    assert_eq!(plan.tag_bit_count, 3);
    assert_eq!(plan.tag_mask, 7);
    assert_eq!(plan.min_required_alignment, 8);

    let test = |tag: usize, payload: usize| {
        let word = compact(PtrRepr(tag, payload));
        assert_eq!(extract(word, plan.tag_mask), PtrRepr(tag, payload));
    };

    test(0, 0 << 3); // Foo::A(&0)
    test(1, 1 << 3); // Foo::B { ptr: &1 }
    test(2, 0); // Foo::C(None)
    test(2, 2 << 3); // Foo::C(Some(Box::new(2)))
    test(3, 0); // Foo::D()
    test(4, 0); // Foo::E {}
    test(5, 0); // Foo::F
}
