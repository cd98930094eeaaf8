use enum_ptr::borrow::{CompactBorrow, FieldDeref};
use enum_ptr::compact::Compact;
use enum_ptr::convert::compact;
use enum_ptr::union2::Union2;
use enum_ptr::utils::{OptShiftUsize, ShiftIsize, ShiftUsize};

// The union under test models:
// enum Foo { A(Box<i32>), B(Box<u32>) }
#[test]
fn borrow_simplest() {
    let foo: Compact<Union2<ShiftIsize<2>, ShiftUsize<2>>> =
        compact(Union2::A(ShiftIsize::new(1)));
    let foo_ref = CompactBorrow::borrow(&foo);
    let value = match foo_ref {
        Union2::A(inner) => inner,
        _ => unreachable!(),
    };
    assert_eq!(value, 1);
}

// enum Foo { A(Option<Box<i32>>), B(Option<Box<u32>>) }
#[test]
fn with_option() {
    let foo: Compact<Union2<OptShiftUsize<2>, OptShiftUsize<2>>> =
        compact(Union2::A(OptShiftUsize::some(1)));
    let foo_ref = foo.borrow();
    let value = match foo_ref {
        Union2::A(Some(inner)) => inner,
        _ => unreachable!(),
    };
    assert_eq!(value, 1);
}

// enum Foo<'a, 'b> { A(&'a i32), B(&'b u32) }
#[test]
fn with_lifetime() {
    let num: isize = 1;
    let foo: Compact<Union2<ShiftIsize<2>, ShiftUsize<2>>> =
        compact(Union2::A(ShiftIsize::new(num)));
    let foo_ref = foo.borrow();
    let value = match foo_ref {
        Union2::A(inner) => inner,
        _ => unreachable!(),
    };
    assert_eq!(value, 1);
}

fn project<A: FieldDeref, B: FieldDeref>(
    compact: &Compact<Union2<A, B>>,
) -> Union2<<A as FieldDeref>::Target, <B as FieldDeref>::Target> {
    compact.borrow()
}

// enum Foo<'a, T, U: Aligned + FieldDeref> { A(&'a T), B(U) }
#[test]
fn with_generic_type() {
    let num: isize = 1;
    let foo: Compact<Union2<ShiftIsize<2>, ShiftUsize<2>>> =
        compact(Union2::A(ShiftIsize::new(num)));
    let foo_ref = project(&foo);
    let value = match foo_ref {
        Union2::A(inner) => inner,
        _ => unreachable!(),
    };
    assert_eq!(value, 1);
}
