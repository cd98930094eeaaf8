//! Read-only projection: viewing the active variant's payload without
//! consuming the compact value.
//!
//! A projection replaces each payload by its non-owning reading
//! ([`FieldDeref`]): a pre-shifted number projects to the number it
//! stores, and a payload-less placeholder projects to itself, the opaque
//! opt-out.  Projecting decodes the word once and never re-materializes
//! the whole value, so ownership never moves.

use crate::aligned::Aligned;
use crate::compact::Compact;
use crate::convert::Compactable;
use crate::union2::Union2;
use crate::union4::Union4;
use crate::utils::{OptShiftUsize, ShiftIsize, ShiftUsize, Unit};
use vstd::prelude::*;

verus! {

/// A payload that can hand out a non-owning reading of itself.
pub trait FieldDeref: Aligned {
    /// What the payload projects to.
    type Target;

    /// The reading of this payload.
    spec fn spec_deref(self) -> Self::Target;

    /// Reads the payload without taking it.
    fn force_deref(&self) -> (r: Self::Target)
        requires
            self.wf(),
        ensures
            r == self.spec_deref(),
    ;
}

impl<const N: usize> FieldDeref for ShiftUsize<N> {
    type Target = usize;

    open spec fn spec_deref(self) -> usize {
        self.0 >> N
    }

    fn force_deref(&self) -> (r: usize) {
        self.get()
    }
}

impl<const N: usize> FieldDeref for ShiftIsize<N> {
    type Target = isize;

    open spec fn spec_deref(self) -> isize {
        self.0 >> N
    }

    fn force_deref(&self) -> (r: isize) {
        self.get()
    }
}

impl<const N: usize> FieldDeref for OptShiftUsize<N> {
    type Target = Option<usize>;

    open spec fn spec_deref(self) -> Option<usize> {
        if self.0 == 0 {
            None
        } else {
            Some(self.0 >> N)
        }
    }

    fn force_deref(&self) -> (r: Option<usize>) {
        self.get()
    }
}

impl FieldDeref for Unit {
    type Target = Unit;

    open spec fn spec_deref(self) -> Unit {
        self
    }

    fn force_deref(&self) -> (r: Unit) {
        *self
    }
}

/// A union whose payloads all project: the whole value can be viewed as
/// the same union with each payload replaced by its reading.
pub trait CompactBorrow: Compactable {
    /// The projected shape of the union.
    type Target;

    /// The projection of a value.
    spec fn spec_borrow(self) -> Self::Target;

    /// Projects the compact value without consuming it.
    fn borrow(compact: &Compact<Self>) -> (r: Self::Target)
        ensures
            r == compact@.spec_borrow(),
    ;
}

impl<A: FieldDeref, B: FieldDeref> CompactBorrow for Union2<A, B> {
    type Target = Union2<A::Target, B::Target>;

    open spec fn spec_borrow(self) -> Union2<A::Target, B::Target> {
        match self {
            Union2::A(a) => Union2::A(a.spec_deref()),
            Union2::B(b) => Union2::B(b.spec_deref()),
        }
    }

    fn borrow(compact: &Compact<Self>) -> (r: Union2<A::Target, B::Target>) {
        let tmp = compact.temp_extract();
        match tmp {
            Union2::A(a) => Union2::A(a.force_deref()),
            Union2::B(b) => Union2::B(b.force_deref()),
        }
    }
}

impl<A: FieldDeref, B: FieldDeref, C: FieldDeref, D: FieldDeref> CompactBorrow
    for Union4<A, B, C, D> {
    type Target = Union4<A::Target, B::Target, C::Target, D::Target>;

    open spec fn spec_borrow(self) -> Union4<A::Target, B::Target, C::Target, D::Target> {
        match self {
            Union4::A(a) => Union4::A(a.spec_deref()),
            Union4::B(b) => Union4::B(b.spec_deref()),
            Union4::C(c) => Union4::C(c.spec_deref()),
            Union4::D(d) => Union4::D(d.spec_deref()),
        }
    }

    fn borrow(compact: &Compact<Self>) -> (r: Union4<A::Target, B::Target, C::Target, D::Target>) {
        let tmp = compact.temp_extract();
        match tmp {
            Union4::A(a) => Union4::A(a.force_deref()),
            Union4::B(b) => Union4::B(b.force_deref()),
            Union4::C(c) => Union4::C(c.force_deref()),
            Union4::D(d) => Union4::D(d.force_deref()),
        }
    }
}

impl<T: CompactBorrow> Compact<T> {
    /// Returns the projected view of the owned value.
    pub fn borrow(&self) -> (r: T::Target)
        ensures
            r == self@.spec_borrow(),
    {
        T::borrow(self)
    }
}

impl<A: FieldDeref, B: FieldDeref> Compact<Union2<A, B>> {
    /// The reading of the first variant's payload, when it is the active
    /// one; `None` when the second variant is active.
    pub fn get_ref_a(&self) -> (r: Option<A::Target>)
        ensures
            r == (match self@ {
                Union2::A(a) => Some(a.spec_deref()),
                Union2::B(_) => None::<A::Target>,
            }),
    {
        let tmp = self.temp_extract();
        match tmp {
            Union2::A(a) => Some(a.force_deref()),
            Union2::B(_) => None,
        }
    }

    /// The reading of the second variant's payload, when it is the
    /// active one.
    pub fn get_ref_b(&self) -> (r: Option<B::Target>)
        ensures
            r == (match self@ {
                Union2::A(_) => None::<B::Target>,
                Union2::B(b) => Some(b.spec_deref()),
            }),
    {
        let tmp = self.temp_extract();
        match tmp {
            Union2::A(_) => None,
            Union2::B(b) => Some(b.force_deref()),
        }
    }
}

impl<A: FieldDeref, B: FieldDeref, C: FieldDeref, D: FieldDeref> Compact<Union4<A, B, C, D>> {
    /// The reading of variant `A`'s payload, when it is the active one.
    pub fn get_ref_a(&self) -> (r: Option<A::Target>)
        ensures
            r == (match self@ {
                Union4::A(a) => Some(a.spec_deref()),
                _ => None::<A::Target>,
            }),
    {
        let tmp = self.temp_extract();
        match tmp {
            Union4::A(a) => Some(a.force_deref()),
            _ => None,
        }
    }

    /// The reading of variant `B`'s payload, when it is the active one.
    pub fn get_ref_b(&self) -> (r: Option<B::Target>)
        ensures
            r == (match self@ {
                Union4::B(b) => Some(b.spec_deref()),
                _ => None::<B::Target>,
            }),
    {
        let tmp = self.temp_extract();
        match tmp {
            Union4::B(b) => Some(b.force_deref()),
            _ => None,
        }
    }

    /// The reading of variant `C`'s payload, when it is the active one.
    pub fn get_ref_c(&self) -> (r: Option<C::Target>)
        ensures
            r == (match self@ {
                Union4::C(c) => Some(c.spec_deref()),
                _ => None::<C::Target>,
            }),
    {
        let tmp = self.temp_extract();
        match tmp {
            Union4::C(c) => Some(c.force_deref()),
            _ => None,
        }
    }

    /// The reading of variant `D`'s payload, when it is the active one.
    pub fn get_ref_d(&self) -> (r: Option<D::Target>)
        ensures
            r == (match self@ {
                Union4::D(d) => Some(d.spec_deref()),
                _ => None::<D::Target>,
            }),
    {
        let tmp = self.temp_extract();
        match tmp {
            Union4::D(d) => Some(d.force_deref()),
            _ => None,
        }
    }
}

} // verus!
