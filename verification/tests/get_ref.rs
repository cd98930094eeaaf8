use enum_ptr::compact::Compact;
use enum_ptr::convert::compact;
use enum_ptr::union2::Union2;
use enum_ptr::utils::{ShiftIsize, ShiftUsize};

// The union under test models:
// enum Foo { A(Box<i32>), B(Box<u32>) }
#[test]
fn get_ref_simplest() {
    let foo: Compact<Union2<ShiftIsize<2>, ShiftUsize<2>>> =
        compact(Union2::A(ShiftIsize::new(1)));
    let result = foo.get_ref_a();
    assert_eq!(result, Some(1));
    assert_eq!(foo.get_ref_b(), None);
}
