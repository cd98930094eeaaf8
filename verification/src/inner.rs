//! The owning inner cell: one compact word plus the ghost of the logical
//! value it encodes.
//!
//! The cell's type invariant is the system's central well-formedness
//! claim: the stored word is always the encoding of one legal value, the
//! value the cell conceptually owns.  Every access path decodes that word,
//! so the round-trip law of [`Compactable`] turns each access into the
//! owned value itself.

use crate::convert::{Compactable, Sealed};
use vstd::prelude::*;

verus! {

/// One compact word, owning the logical value it encodes.
pub struct CompactInner<T: Compactable> {
    word: usize,
    value: Ghost<T>,
}

impl<T: Compactable> Sealed for CompactInner<T> {
}

impl<T: Compactable> Clone for CompactInner<T> {
    /// Clones by reconstructing the owned value and encoding it afresh,
    /// exactly as a new cell would be made.
    fn clone(&self) -> (r: Self)
        ensures
            r@ == self@,
    {
        CompactInner::new(self.peek())
    }
}

impl<T: Compactable> View for CompactInner<T> {
    type V = T;

    closed spec fn view(&self) -> T {
        self.value@
    }
}

impl<T: Compactable> CompactInner<T> {
    /// The cell's invariant: the word is the encoding of the owned legal
    /// value.
    #[verifier::type_invariant]
    spec fn inv(self) -> bool {
        &&& self.value@.wf()
        &&& self.word == self.value@.spec_word()
    }

    /// Encodes a value into a fresh cell that owns it.
    pub fn new(value: T) -> (r: Self)
        requires
            value.wf(),
        ensures
            r@ == value,
    {
        let ghost v = value;
        let word = value.compact_inner();
        CompactInner { word, value: Ghost(v) }
    }

    /// The raw compact word.
    pub fn word(&self) -> (r: usize)
        ensures
            r == self@.spec_word(),
    {
        proof {
            use_type_invariant(&*self);
        }
        self.word
    }

    /// Reconstructs the owned value from the stored word without giving
    /// up ownership: the caller gets a temporary whose teardown is the
    /// crate's to suppress, never the cell's.
    pub(crate) fn peek(&self) -> (r: T)
        ensures
            r == self@,
            r.wf(),
    {
        proof {
            use_type_invariant(&*self);
            self.value@.lemma_extract_compact();
        }
        T::extract_inner(self.word)
    }
}

} // verus!
