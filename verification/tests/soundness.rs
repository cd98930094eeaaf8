use enum_ptr::convert::{compact, extract};
use enum_ptr::union2::Union2;
use enum_ptr::utils::{ShiftIsize, Unit};

// The union under test models:
// enum Foo<'a> { A, B(&'a i32) }
#[test]
fn unit_variants() {
    let a: Union2<Unit, ShiftIsize<2>> = Union2::A(Unit::new());
    let back_a = extract(compact(a));
    println!("{:?}", back_a);
    assert_eq!(back_a, a);

    let b: Union2<Unit, ShiftIsize<2>> = Union2::B(ShiftIsize::new(42));
    let back_b = extract(compact(b));
    println!("{:?}", back_b);
    assert_eq!(back_b, b);
}

// Scenario: a mix of a unit variant and a payload variant round-trips for
// both, and the unit variant's word is the bare tag, so no payload bits
// of it exist to be read.
#[test]
fn unit_word_is_bare_tag() {
    let a: Union2<Unit, ShiftIsize<2>> = Union2::A(Unit::new());
    let c = compact(a);
    assert_eq!(c.as_raw_data(), 0);
    assert_eq!(extract(c), a);

    let b: Union2<Unit, ShiftIsize<2>> = Union2::B(ShiftIsize::new(9));
    let c = compact(b);
    assert_eq!(c.as_raw_data(), (9usize << 2) | 1);
    assert_eq!(extract(c), b);
}
