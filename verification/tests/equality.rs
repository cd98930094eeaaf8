use enum_ptr::convert::{compact, extract};
use enum_ptr::union4::Union4;
use enum_ptr::utils::{OptShiftUsize, ShiftIsize, ShiftUsize, Unit};

// The union under test models:
// enum Foo<'a, 'b> { A(&'a u64), B { ptr: &'b i64 }, C(Option<Box<i64>>), D(Unit) }
type Foo = Union4<ShiftUsize<3>, ShiftIsize<3>, OptShiftUsize<3>, Unit>;

#[test]
fn equality() {
    let test = |f: Foo| assert_eq!(extract(compact(f.clone())), f);

    test(Union4::A(ShiftUsize::new(0)));
    test(Union4::B(ShiftIsize::new(1)));
    test(Union4::C(OptShiftUsize::none()));
    test(Union4::C(OptShiftUsize::some(2)));
    test(Union4::D(Unit::new()));
}
