//! The range types of `core::ops` that strided views are indexed with, made
//! known to the verifier. Their fields are public in `core`, and are read as
//! they stand.
use vstd::prelude::*;

verus! {

/// `core::ops::RangeFrom`: the positions from `start` on.
#[verifier::external_type_specification]
#[verifier::reject_recursive_types(Idx)]
pub struct ExRangeFrom<Idx>(core::ops::RangeFrom<Idx>);

/// `core::ops::RangeTo`: the positions before `end`.
#[verifier::external_type_specification]
#[verifier::reject_recursive_types(Idx)]
pub struct ExRangeTo<Idx>(core::ops::RangeTo<Idx>);

/// `core::ops::RangeToInclusive`: the positions up to `end`, inclusive.
#[verifier::external_type_specification]
#[verifier::reject_recursive_types(Idx)]
pub struct ExRangeToInclusive<Idx>(core::ops::RangeToInclusive<Idx>);

/// `core::ops::RangeFull`: every position.
#[verifier::external_type_specification]
pub struct ExRangeFull(core::ops::RangeFull);

/// Relies on `RangeInclusive::start`: it returns the lower bound the range was
/// built with.
pub assume_specification<Idx>[ core::ops::RangeInclusive::<Idx>::start ](
    range: &core::ops::RangeInclusive<Idx>,
) -> (r: &Idx)
    ensures
        *r == range@.start,
;

/// Relies on `RangeInclusive::end`: it returns the upper bound the range was
/// built with.
pub assume_specification<Idx>[ core::ops::RangeInclusive::<Idx>::end ](
    range: &core::ops::RangeInclusive<Idx>,
) -> (r: &Idx)
    ensures
        *r == range@.end,
;

} // verus!
