//! The owning compact wrapper: construction, destruction, and temporary
//! reconstruction.
//!
//! A [`Compact<T>`] owns one logical value of `T`, stored as one compact
//! word.  It is born by consuming a value ([`Compactable::compact`] or
//! [`Compact::new`]) and dies by the one consuming decode
//! ([`Compact::extract`]): Rust's move discipline makes that teardown
//! happen exactly once, and no operation is callable afterwards.  The
//! non-consuming paths reconstruct a temporary copy of the value and
//! never write it back unless asked: a mutation goes through
//! [`Compact::map_mut`] or [`Compact::replace`], which re-encode, so no
//! change is ever silently lost.

use crate::convert::Compactable;
use crate::inner::CompactInner;
use vstd::prelude::*;

verus! {

/// Compact representation of `T`: one word that owns one logical value.
pub struct Compact<T: Compactable> {
    inner: CompactInner<T>,
}

impl<T: Compactable> Clone for Compact<T> {
    /// Clones the owned value: a reconstruct-and-re-encode, never a bare
    /// word copy, so each clone owns its value separately.
    fn clone(&self) -> (r: Self)
        ensures
            r@ == self@,
    {
        Compact { inner: self.inner.clone() }
    }
}

impl<T: Compactable> View for Compact<T> {
    type V = T;

    closed spec fn view(&self) -> T {
        self.inner@
    }
}

impl<T: Compactable> Compact<T> {
    /// Consumes a legal value into its compact form.
    pub fn new(value: T) -> (r: Self)
        requires
            value.wf(),
        ensures
            r@ == value,
    {
        Compact { inner: CompactInner::new(value) }
    }

    /// The underlying raw word.
    pub fn as_raw_data(&self) -> (r: usize)
        ensures
            r == self@.spec_word(),
    {
        self.inner.word()
    }

    /// Reconstructs a temporary of the owned value; the wrapper keeps
    /// ownership and the temporary owes no teardown.
    pub(crate) fn temp_extract(&self) -> (r: T)
        ensures
            r == self@,
            r.wf(),
    {
        self.inner.peek()
    }

    /// Returns the original value, consuming the wrapper: the only
    /// operation that fully re-materializes `T` as a standalone value,
    /// and the wrapper's sole end of life.
    pub fn extract(self) -> (r: T)
        ensures
            r == self@,
            r.wf(),
    {
        self.temp_extract()
    }

    /// Maps the owned value to a result by applying `f` to a temporarily
    /// reconstructed `T`.  The temporary dies with the call, so nothing
    /// borrowed from it can escape.
    pub fn map_ref<U, F: FnOnce(&T) -> U>(&self, f: F) -> (r: U)
        requires
            call_requires(f, (&self@,)),
        ensures
            call_ensures(f, (&self@,), r),
    {
        let tmp = self.temp_extract();
        f(&tmp)
    }

    /// Rewrites the owned value by applying `f` to a temporary
    /// reconstruction and re-encoding whatever comes back, so even a
    /// variant-changing mutation is kept, never silently lost.
    pub fn map_mut<F: FnOnce(T) -> T>(&mut self, f: F)
        requires
            call_requires(f, (old(self)@,)),
            forall|v: T| call_ensures(f, (old(self)@,), v) ==> v.wf(),
        ensures
            call_ensures(f, (old(self)@,), final(self)@),
    {
        let tmp = self.temp_extract();
        let next = f(tmp);
        self.inner = CompactInner::new(next);
    }

    /// Replaces the owned value outright, returning the old one: the
    /// explicit way to change the active variant.
    pub fn replace(&mut self, value: T) -> (old_value: T)
        requires
            value.wf(),
        ensures
            old_value == old(self)@,
            old_value.wf(),
            final(self)@ == value,
    {
        let tmp = self.temp_extract();
        self.inner = CompactInner::new(value);
        tmp
    }
}

} // verus!
