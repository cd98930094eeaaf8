//! Write-through projection: updating the active variant's payload in
//! place, with every change re-encoded into the compact word.
//!
//! A mutable projection may only rewrite the payload of the variant that
//! is already active ([`CompactBorrowMut::borrow_mut`] refuses a target of
//! the other variant); changing the variant itself is the explicit
//! [`crate::compact::Compact::replace`].  Whatever is written is encoded
//! back at once, so no mutation is ever silently lost.

use crate::borrow::{CompactBorrow, FieldDeref};
use crate::compact::Compact;
use crate::union2::Union2;
use crate::union4::Union4;
use crate::utils::{OptShiftUsize, ShiftIsize, ShiftUsize, Unit};
use vstd::prelude::*;

verus! {

/// A payload whose reading can also be written back.
pub trait FieldDerefMut: FieldDeref {
    /// The payload after its reading is set to the given target.
    spec fn spec_set(self, target: Self::Target) -> Self;

    /// Writes the reading into the payload, keeping it well formed.
    fn force_deref_mut(&mut self, target: Self::Target)
        requires
            old(self).wf(),
        ensures
            *final(self) == old(self).spec_set(target),
            final(self).wf(),
    ;
}

impl<const N: usize> FieldDerefMut for ShiftUsize<N> {
    open spec fn spec_set(self, target: usize) -> Self {
        ShiftUsize(target << N)
    }

    fn force_deref_mut(&mut self, target: usize) {
        self.set(target);
    }
}

impl<const N: usize> FieldDerefMut for ShiftIsize<N> {
    open spec fn spec_set(self, target: isize) -> Self {
        ShiftIsize(target << N)
    }

    fn force_deref_mut(&mut self, target: isize) {
        self.set(target);
    }
}

impl<const N: usize> FieldDerefMut for OptShiftUsize<N> {
    open spec fn spec_set(self, target: Option<usize>) -> Self {
        match target {
            None => OptShiftUsize(0),
            Some(val) => OptShiftUsize(val << N),
        }
    }

    fn force_deref_mut(&mut self, target: Option<usize>) {
        match target {
            None => {
                proof {
                    let m = vstd::bits::low_bits_mask(N as nat) as usize;
                    assert(0usize & m == 0) by (bit_vector);
                }
                self.0 = 0;
            },
            Some(val) => {
                proof {
                    crate::utils::lemma_shl_low_bits_zero(val, N);
                }
                self.0 = val << N;
            },
        }
    }
}

impl FieldDerefMut for Unit {
    open spec fn spec_set(self, target: Unit) -> Self {
        self
    }

    fn force_deref_mut(&mut self, target: Unit) {
    }
}

/// A union whose payloads can be written through their projection.
pub trait CompactBorrowMut: CompactBorrow {
    /// Whether the target names the variant that is active in the value.
    spec fn spec_same_variant(self, target: Self::Target) -> bool;

    /// The value with the active variant's payload reading replaced.
    spec fn spec_with(self, target: Self::Target) -> Self;

    /// Writes the target through the projection.  Returns whether it
    /// applied: a target of the inactive variant is refused and the
    /// value is left untouched.
    fn borrow_mut(compact: &mut Compact<Self>, target: Self::Target) -> (r: bool)
        ensures
            r == old(compact)@.spec_same_variant(target),
            r ==> final(compact)@ == old(compact)@.spec_with(target),
            !r ==> final(compact)@ == old(compact)@,
    ;
}

impl<A: FieldDerefMut, B: FieldDerefMut> CompactBorrowMut for Union2<A, B> {
    open spec fn spec_same_variant(self, target: Union2<A::Target, B::Target>) -> bool {
        match (self, target) {
            (Union2::A(_), Union2::A(_)) => true,
            (Union2::B(_), Union2::B(_)) => true,
            _ => false,
        }
    }

    open spec fn spec_with(self, target: Union2<A::Target, B::Target>) -> Self {
        match (self, target) {
            (Union2::A(a), Union2::A(ta)) => Union2::A(a.spec_set(ta)),
            (Union2::B(b), Union2::B(tb)) => Union2::B(b.spec_set(tb)),
            _ => self,
        }
    }

    fn borrow_mut(compact: &mut Compact<Self>, target: Union2<A::Target, B::Target>) -> (r: bool) {
        let tmp = compact.temp_extract();
        match (tmp, target) {
            (Union2::A(a), Union2::A(ta)) => {
                let mut a2 = a;
                a2.force_deref_mut(ta);
                compact.replace(Union2::A(a2));
                true
            },
            (Union2::B(b), Union2::B(tb)) => {
                let mut b2 = b;
                b2.force_deref_mut(tb);
                compact.replace(Union2::B(b2));
                true
            },
            _ => false,
        }
    }
}

impl<A: FieldDerefMut, B: FieldDerefMut, C: FieldDerefMut, D: FieldDerefMut> CompactBorrowMut
    for Union4<A, B, C, D> {
    open spec fn spec_same_variant(
        self,
        target: Union4<A::Target, B::Target, C::Target, D::Target>,
    ) -> bool {
        match (self, target) {
            (Union4::A(_), Union4::A(_)) => true,
            (Union4::B(_), Union4::B(_)) => true,
            (Union4::C(_), Union4::C(_)) => true,
            (Union4::D(_), Union4::D(_)) => true,
            _ => false,
        }
    }

    open spec fn spec_with(
        self,
        target: Union4<A::Target, B::Target, C::Target, D::Target>,
    ) -> Self {
        match (self, target) {
            (Union4::A(a), Union4::A(ta)) => Union4::A(a.spec_set(ta)),
            (Union4::B(b), Union4::B(tb)) => Union4::B(b.spec_set(tb)),
            (Union4::C(c), Union4::C(tc)) => Union4::C(c.spec_set(tc)),
            (Union4::D(d), Union4::D(td)) => Union4::D(d.spec_set(td)),
            _ => self,
        }
    }

    fn borrow_mut(
        compact: &mut Compact<Self>,
        target: Union4<A::Target, B::Target, C::Target, D::Target>,
    ) -> (r: bool) {
        let tmp = compact.temp_extract();
        match (tmp, target) {
            (Union4::A(a), Union4::A(ta)) => {
                let mut a2 = a;
                a2.force_deref_mut(ta);
                compact.replace(Union4::A(a2));
                true
            },
            (Union4::B(b), Union4::B(tb)) => {
                let mut b2 = b;
                b2.force_deref_mut(tb);
                compact.replace(Union4::B(b2));
                true
            },
            (Union4::C(c), Union4::C(tc)) => {
                let mut c2 = c;
                c2.force_deref_mut(tc);
                compact.replace(Union4::C(c2));
                true
            },
            (Union4::D(d), Union4::D(td)) => {
                let mut d2 = d;
                d2.force_deref_mut(td);
                compact.replace(Union4::D(d2));
                true
            },
            _ => false,
        }
    }
}

impl<T: CompactBorrowMut> Compact<T> {
    /// Writes the target through the projection; see
    /// [`CompactBorrowMut::borrow_mut`].
    pub fn borrow_mut(&mut self, target: T::Target) -> (r: bool)
        ensures
            r == old(self)@.spec_same_variant(target),
            r ==> final(self)@ == old(self)@.spec_with(target),
            !r ==> final(self)@ == old(self)@,
    {
        T::borrow_mut(self, target)
    }
}

} // verus!
