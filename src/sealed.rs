//! The index types that the library's indexing traits accept; no other crate
//! can add to them.
use vstd::prelude::*;

verus! {

/// Implemented by the index types of this crate's indexing traits only.
pub trait Sealed {}

impl Sealed for usize {}

impl Sealed for (usize, usize) {}

impl Sealed for core::ops::Range<usize> {}

impl Sealed for core::ops::RangeFrom<usize> {}

impl Sealed for core::ops::RangeFull {}

impl Sealed for core::ops::RangeInclusive<usize> {}

impl Sealed for core::ops::RangeTo<usize> {}

impl Sealed for core::ops::RangeToInclusive<usize> {}

} // verus!
