//! The trivially-duplicable compact form, for unions whose payloads are
//! plain non-owning values.
//!
//! When every payload of a union is freely copyable, the compact word owes
//! no teardown and may be duplicated at will.  That specialisation is a
//! distinct type, not a flag on the owning one: [`CompactCopy`] is `Copy`,
//! and each use simply copies the word and decodes it.

use crate::compact::Compact;
use crate::convert::{Compactable, Sealed};
use vstd::prelude::*;

verus! {

/// One compact word of a freely copyable union value.
pub struct CompactInnerCopy<T: Compactable + Copy> {
    word: usize,
    value: Ghost<T>,
}

impl<T: Compactable + Copy> Clone for CompactInnerCopy<T> {
    fn clone(&self) -> (r: Self)
        ensures
            r == *self,
    {
        proof {
            use_type_invariant(&*self);
        }
        CompactInnerCopy { word: self.word, value: self.value }
    }
}

impl<T: Compactable + Copy> Copy for CompactInnerCopy<T> {
}

impl<T: Compactable + Copy> Sealed for CompactInnerCopy<T> {
}

impl<T: Compactable + Copy> View for CompactInnerCopy<T> {
    type V = T;

    closed spec fn view(&self) -> T {
        self.value@
    }
}

impl<T: Compactable + Copy> CompactInnerCopy<T> {
    /// The cell's invariant: the word is the encoding of the legal value
    /// it stands for.
    #[verifier::type_invariant]
    spec fn inv(self) -> bool {
        &&& self.value@.wf()
        &&& self.word == self.value@.spec_word()
    }

    /// Encodes a value into a fresh cell.
    pub fn new(value: T) -> (r: Self)
        requires
            value.wf(),
        ensures
            r@ == value,
    {
        let ghost v = value;
        let word = value.compact_inner();
        CompactInnerCopy { word, value: Ghost(v) }
    }

    /// The raw compact word.
    pub fn word(&self) -> (r: usize)
        ensures
            r == self@.spec_word(),
    {
        proof {
            use_type_invariant(&*self);
        }
        self.word
    }

    /// Decodes the word back into the value it stands for.
    pub fn value(&self) -> (r: T)
        ensures
            r == self@,
            r.wf(),
    {
        proof {
            use_type_invariant(&*self);
            self.value@.lemma_extract_compact();
        }
        T::extract_inner(self.word)
    }
}

/// A `Copy` version of [`crate::compact::Compact`].
#[derive(Clone, Copy)]
pub struct CompactCopy<T: Compactable + Copy> {
    inner: CompactInnerCopy<T>,
}

impl<T: Compactable + Copy> View for CompactCopy<T> {
    type V = T;

    closed spec fn view(&self) -> T {
        self.inner@
    }
}

impl<T: Compactable + Copy> CompactCopy<T> {
    /// Consumes a legal value into its compact, copyable form.
    pub fn new(value: T) -> (r: Self)
        requires
            value.wf(),
        ensures
            r@ == value,
    {
        CompactCopy { inner: CompactInnerCopy::new(value) }
    }

    /// Gets the inner raw word.
    pub fn inner(&self) -> (r: usize)
        ensures
            r == self@.spec_word(),
    {
        self.inner.word()
    }

    /// Returns the original value.  The wrapper is `Copy`, so this can be
    /// done any number of times.
    pub fn extract(self) -> (r: T)
        ensures
            r == self@,
            r.wf(),
    {
        self.inner.value()
    }

    /// The owning form of the same value.
    pub fn into_compact(self) -> (r: Compact<T>)
        ensures
            r@ == self@,
    {
        Compact::new(self.extract())
    }

    /// The copyable form of an owned compact value.
    pub fn from_compact(value: Compact<T>) -> (r: Self)
        ensures
            r@ == value@,
    {
        CompactCopy::new(value.extract())
    }
}

} // verus!
