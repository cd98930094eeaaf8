use enum_ptr::plan::{PayloadKind, RegistrationError, Variant, VariantTable};

fn pointer_variant(alignment: usize) -> Variant {
    Variant {
        field_count: 1,
        payload_words: 1,
        explicit_discriminant: false,
        kind: PayloadKind::Pointerlike,
        alignment,
    }
}

fn unit_variant() -> Variant {
    Variant {
        field_count: 0,
        payload_words: 0,
        explicit_discriminant: false,
        kind: PayloadKind::Unit,
        alignment: usize::MAX,
    }
}

fn table_of(variants: Vec<Variant>) -> VariantTable {
    VariantTable { variants }
}

#[test]
fn plan_values_per_variant_count() {
    // (variant count, tag bits, tag mask, minimum required alignment)
    let expected: [(usize, usize, usize, usize); 6] = [
        (1, 0, 0, 1),
        (2, 1, 1, 2),
        (3, 2, 3, 4),
        (4, 2, 3, 4),
        (5, 3, 7, 8),
        (6, 3, 7, 8),
    ];
    for &(count, bits, mask, min) in expected.iter() {
        let table = table_of(vec![pointer_variant(8); count]);
        let plan = table.register().unwrap();
        assert_eq!(plan.variant_count, count);
        assert_eq!(plan.tag_bit_count, bits);
        assert_eq!(plan.tag_mask, mask);
        assert_eq!(plan.min_required_alignment, min);
    }
}

#[test]
fn empty_table_is_refused() {
    let table = table_of(vec![]);
    assert_eq!(table.register(), Err(RegistrationError::NoVariants));
}

#[test]
fn two_payload_fields_are_refused() {
    let mut bad = pointer_variant(8);
    bad.field_count = 2;
    let table = table_of(vec![pointer_variant(8), bad]);
    assert_eq!(
        table.register(),
        Err(RegistrationError::TooManyFields { variant: 1 })
    );
}

#[test]
fn explicit_discriminant_is_refused() {
    let mut bad = pointer_variant(8);
    bad.explicit_discriminant = true;
    let table = table_of(vec![bad, pointer_variant(8)]);
    assert_eq!(
        table.register(),
        Err(RegistrationError::ExplicitDiscriminant { variant: 0 })
    );
}

#[test]
fn wide_payload_is_refused() {
    let mut bad = pointer_variant(8);
    bad.payload_words = 2;
    let table = table_of(vec![pointer_variant(8), pointer_variant(8), bad]);
    assert_eq!(
        table.register(),
        Err(RegistrationError::PayloadTooWide { variant: 2 })
    );
}

#[test]
fn all_unit_table_has_nothing_to_compact() {
    let table = table_of(vec![unit_variant(), unit_variant(), unit_variant()]);
    assert_eq!(table.register(), Err(RegistrationError::NothingToCompact));
}

// Scenario: { A(ref to 4-byte-aligned i32), B(ref to 1-byte-aligned i8) }.
// Two variants need a one-bit tag, so every payload must guarantee
// alignment 2; B guarantees only 1 and is named in the failure.
// Substituting a sufficiently aligned payload makes the same table pass.
#[test]
fn no_enough_alignment() {
    let table = table_of(vec![pointer_variant(4), pointer_variant(1)]);
    assert_eq!(
        table.register(),
        Err(RegistrationError::InsufficientAlignment {
            variant: 1,
            required: 2,
            found: 1,
        })
    );

    let fixed = table_of(vec![pointer_variant(4), pointer_variant(4)]);
    assert!(fixed.register().is_ok());
}

// A unit variant passes the alignment gate vacuously, whatever demand the
// tag makes.
#[test]
fn unit_variant_passes_alignment_gate() {
    let table = table_of(vec![
        pointer_variant(8),
        unit_variant(),
        pointer_variant(8),
        pointer_variant(8),
        pointer_variant(8),
    ]);
    let plan = table.register().unwrap();
    assert_eq!(plan.min_required_alignment, 8);
}

// The first under-aligned payload variant is the one named.
#[test]
fn first_offender_is_named() {
    let table = table_of(vec![
        pointer_variant(8),
        pointer_variant(2),
        pointer_variant(1),
    ]);
    assert_eq!(
        table.register(),
        Err(RegistrationError::InsufficientAlignment {
            variant: 1,
            required: 4,
            found: 2,
        })
    );
}

#[test]
fn validate_input_reports_first_structural_offence() {
    let mut bad = pointer_variant(8);
    bad.field_count = 3;
    let table = table_of(vec![pointer_variant(8), bad]);
    assert_eq!(
        enum_ptr::plan::validate_input(&table),
        Err(RegistrationError::TooManyFields { variant: 1 })
    );
    let good = table_of(vec![pointer_variant(8)]);
    assert_eq!(enum_ptr::plan::validate_input(&good), Ok(()));
}
