//! A verified codec that stores a tagged union of one-word payloads in a
//! single machine word.
//!
//! A tagged union whose payload fits in one machine word normally takes two
//! words: one for the discriminant tag and one for the payload.  When every
//! payload's bit pattern is guaranteed to have its low bits zero (because the
//! payload is an aligned address, or a number stored pre-shifted), the tag can
//! be hidden in those bits and the whole value fits in one word.
//!
//! The crate is organised bottom up:
//! - [`plan`] validates a union's variant table and derives the tag layout
//!   (bit count, mask, and the alignment every payload must guarantee);
//! - [`codec`] is the pure word-level encode/decode pair with its round-trip
//!   proof;
//! - [`aligned`] is the capability trait a payload type implements to witness
//!   its guaranteed alignment and its bit pattern;
//! - [`utils`] holds the ready-made payload types: [`utils::Unit`] for
//!   payload-less variants, the pre-shifted integers [`utils::ShiftUsize`] /
//!   [`utils::ShiftIsize`], and the optional word [`utils::OptShiftUsize`];
//! - [`convert`], [`inner`], [`compact`] and [`compact_copy`] build the owning
//!   wrapper [`compact::Compact`] and its trivially-copyable counterpart
//!   [`compact_copy::CompactCopy`] around the codec;
//! - [`borrow`] and [`borrow_mut`] are the non-destructive access paths;
//! - [`union2`] and [`union4`] are the crate's worked unions, with the typed
//!   round-trip law proved once for every choice of payloads.

pub mod aligned;
pub mod borrow;
pub mod borrow_mut;
pub mod codec;
pub mod compact;
pub mod compact_copy;
pub mod convert;
pub mod inner;
pub mod plan;
pub mod union2;
pub mod union4;
pub mod utils;
