//! The conversion contract between a tagged union type and its compact
//! word.
//!
//! A union type implements [`Compactable`] by fixing its tag mask, the
//! encoding of each legal value into one word, and the decoding back.  The
//! trait's proof obligation is the round-trip law: every implementation
//! must show that decoding inverts encoding, so everything built on top of
//! the trait inherits it.  [`crate::union2::Union2`] is the crate's worked
//! implementation.

use crate::compact::Compact;
use crate::plan::RegistrationError;
use vstd::prelude::*;

verus! {

/// Marker sealing the compact inner representations: only the crate's own
/// word-holding cells implement it.
pub trait Sealed {
}

/// A tagged union of one-word payloads that can live in one compact word.
pub trait Compactable: Sized {
    /// The mask selecting this type's tag bits in a compact word.
    spec fn spec_mask() -> usize;

    /// The compact word a legal value encodes to.
    spec fn spec_word(self) -> usize;

    /// The value a compact word decodes to.
    spec fn spec_value(word: usize) -> Self;

    /// The legal values: payloads well formed, and aligned enough for the
    /// tag this type hides in them.
    spec fn wf(self) -> bool;

    /// The round-trip law, owed by every implementation: decoding an
    /// encoded legal value yields that value again.
    proof fn lemma_extract_compact(self)
        requires
            self.wf(),
        ensures
            Self::spec_value(self.spec_word()) == self;

    /// The tag mask, as a runtime value.
    fn mask() -> (r: usize)
        ensures
            r == Self::spec_mask();

    /// Encodes the value, consuming it.
    fn compact_inner(self) -> (r: usize)
        requires
            self.wf(),
        ensures
            r == self.spec_word();

    /// Decodes a word that encodes some legal value of this type.
    fn extract_inner(word: usize) -> (r: Self)
        requires
            exists|v: Self| v.wf() && v.spec_word() == word,
        ensures
            r == Self::spec_value(word),
            r.wf(),
            r.spec_word() == word,
    ;

    /// Why a value fails the deferred gate, if it does: `None` exactly on
    /// the legal values; otherwise a failure naming the active variant
    /// and, for the alignment case, the demanded and the found alignment.
    spec fn spec_gate(self) -> Option<RegistrationError>;

    /// The verdict matches legality: no failure is reported exactly on
    /// the legal values.
    proof fn lemma_gate(self)
        ensures
            (self.spec_gate() is None) <==> self.wf();

    /// Decides legality at runtime: the deferred form of the alignment
    /// gate, for callers that only learn the union's payload types
    /// generically.
    fn gate(&self) -> (r: Option<RegistrationError>)
        ensures
            r == self.spec_gate(),
    ;
}

/// The round-trip law at the level of union values: destructing what
/// construction stored yields the stored value, for every legal value of
/// every compactable union.
pub proof fn lemma_round_trip<T: Compactable>(value: T)
    requires
        value.wf(),
    ensures
        T::spec_value(value.spec_word()) == value,
{
    value.lemma_extract_compact();
}

/// Construction: consumes a legal value into its compact, one-word form.
pub fn compact<T: Compactable>(value: T) -> (r: Compact<T>)
    requires
        value.wf(),
    ensures
        r@ == value,
{
    Compact::new(value)
}

/// The deferred gate of construction: decides at the first construction
/// of a generically known union type whether compacting this value is
/// sound, instead of asking the caller to know it.  An illegal value is
/// handed back untouched beside a failure naming the offending variant;
/// there is nothing to recover, since compaction of that variant is
/// unsound.
pub fn try_compact<T: Compactable>(value: T) -> (r: Result<Compact<T>, (T, RegistrationError)>)
    ensures
        (match r {
            Ok(c) => value.wf() && c@ == value,
            Err((v, e)) => !value.wf() && v == value && value.spec_gate() == Some(e),
        }),
{
    proof {
        value.lemma_gate();
    }
    match value.gate() {
        None => Ok(Compact::new(value)),
        Some(e) => Err((value, e)),
    }
}

/// Destruction: fully re-materializes the value a compact word holds,
/// consuming the wrapper.
pub fn extract<T: Compactable>(value: Compact<T>) -> (r: T)
    ensures
        r == value@,
        r.wf(),
{
    value.extract()
}

} // verus!
