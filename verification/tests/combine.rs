use enum_ptr::compact_copy::CompactCopy;
use enum_ptr::union2::Union2;
use enum_ptr::utils::{ShiftIsize, ShiftUsize};

// The union under test models:
// enum Foo<'a, 'b> { A(&'a i32), B(&'b u32) }, a Copy enum: its compact
// form is freely duplicable.
#[test]
fn combine_simplest() {
    let foo: CompactCopy<Union2<ShiftIsize<2>, ShiftUsize<2>>> =
        CompactCopy::new(Union2::A(ShiftIsize::new(1)));
    let _ = foo;
    let _ = foo;
}
