//! Positions and ranges of positions that select from a strided view.
use vstd::prelude::*;

use crate::sealed::Sealed;
use crate::stride::Stride;
use core::ops::{Range, RangeFrom, RangeFull, RangeInclusive, RangeTo, RangeToInclusive};

verus! {

/// An index into a [`Stride`]: a position selects one element, a range of
/// positions selects a sub-view with the same stride.
///
/// A logical position `k` stands for the physical offset `k * S` of the region
/// behind the view; a range of positions stands for the range of the region
/// between the physical offsets of its ends.
pub trait StrideIndex<'a, T: 'a, const S: usize>: Sealed + Sized {
    /// What the index selects.
    type Output;

    /// Whether the index selects something of the region behind `stride`.
    spec fn in_region(&self, stride: Stride<'a, T, S>) -> bool;

    /// Whether `out` is what the index selects of the region behind `stride`.
    spec fn selects(&self, stride: Stride<'a, T, S>, out: Self::Output) -> bool;

    /// What the index selects of the view, or `None` when it falls outside.
    fn get(self, stride: Stride<'a, T, S>) -> (r: Option<Self::Output>)
        ensures
            r is Some <==> self.in_region(stride),
            r matches Some(o) ==> self.selects(stride, o),
    ;

    /// What the index selects of the view, which it must not fall outside.
    fn index(self, stride: Stride<'a, T, S>) -> (r: Self::Output)
        requires
            self.in_region(stride),
        ensures
            self.selects(stride, r),
    {
        match self.get(stride) {
            Some(o) => o,
            None => vstd::pervasive::unreached(),
        }
    }
}

impl<'a, T: 'a, const S: usize> StrideIndex<'a, T, S> for usize {
    type Output = &'a T;

    open spec fn in_region(&self, stride: Stride<'a, T, S>) -> bool {
        *self < stride@.len()
    }

    open spec fn selects(&self, stride: Stride<'a, T, S>, out: &'a T) -> bool {
        *out == stride.region()[*self * S]
    }

    fn get(self, stride: Stride<'a, T, S>) -> (r: Option<&'a T>) {
        stride.element(self)
    }
}

/// The part of `region` between the physical offsets `lo` and `hi`, as a
/// view with stride `S`, or `None` when it is not within the region.
fn sub_stride<'a, T, const S: usize>(stride: Stride<'a, T, S>, lo: Option<usize>, hi: Option<usize>) -> (r: Option<Stride<'a, T, S>>)
    ensures
        stride.region().len() <= usize::MAX,
        r is Some <==> (lo is Some && hi is Some && lo.unwrap() <= hi.unwrap() <= stride.region().len()),
        r matches Some(o) ==> o.region() == stride.region().subrange(lo.unwrap() as int, hi.unwrap() as int),
{
    let data = stride.region_slice();
    let n = data.len();
    match (lo, hi) {
        (Some(a), Some(b)) => {
            if a <= b && b <= n {
                Some(Stride::new(vstd::slice::slice_subrange(data, a, b)))
            } else {
                None
            }
        },
        _ => None,
    }
}

impl<'a, T: 'a, const S: usize> StrideIndex<'a, T, S> for Range<usize> {
    type Output = Stride<'a, T, S>;

    open spec fn in_region(&self, stride: Stride<'a, T, S>) -> bool {
        self.start * S <= self.end * S <= stride.region().len()
    }

    open spec fn selects(&self, stride: Stride<'a, T, S>, out: Stride<'a, T, S>) -> bool {
        out.region() == stride.region().subrange(self.start * S, self.end * S)
    }

    fn get(self, stride: Stride<'a, T, S>) -> (r: Option<Stride<'a, T, S>>) {
        sub_stride(stride, self.start.checked_mul(S), self.end.checked_mul(S))
    }
}

impl<'a, T: 'a, const S: usize> StrideIndex<'a, T, S> for RangeFrom<usize> {
    type Output = Stride<'a, T, S>;

    open spec fn in_region(&self, stride: Stride<'a, T, S>) -> bool {
        self.start * S <= stride.region().len()
    }

    open spec fn selects(&self, stride: Stride<'a, T, S>, out: Stride<'a, T, S>) -> bool {
        out.region() == stride.region().subrange(self.start * S, stride.region().len() as int)
    }

    fn get(self, stride: Stride<'a, T, S>) -> (r: Option<Stride<'a, T, S>>) {
        let n = stride.region_slice().len();
        sub_stride(stride, self.start.checked_mul(S), Some(n))
    }
}

impl<'a, T: 'a, const S: usize> StrideIndex<'a, T, S> for RangeFull {
    type Output = Stride<'a, T, S>;

    open spec fn in_region(&self, stride: Stride<'a, T, S>) -> bool {
        true
    }

    open spec fn selects(&self, stride: Stride<'a, T, S>, out: Stride<'a, T, S>) -> bool {
        out.region() == stride.region()
    }

    fn get(self, stride: Stride<'a, T, S>) -> (r: Option<Stride<'a, T, S>>) {
        Some(stride)
    }
}

impl<'a, T: 'a, const S: usize> StrideIndex<'a, T, S> for RangeInclusive<usize> {
    type Output = Stride<'a, T, S>;

    open spec fn in_region(&self, stride: Stride<'a, T, S>) -> bool {
        self@.start * S <= self@.end * S + 1 <= stride.region().len()
    }

    open spec fn selects(&self, stride: Stride<'a, T, S>, out: Stride<'a, T, S>) -> bool {
        out.region() == stride.region().subrange(self@.start * S, self@.end * S + 1)
    }

    fn get(self, stride: Stride<'a, T, S>) -> (r: Option<Stride<'a, T, S>>) {
        let hi = match self.end().checked_mul(S) {
            Some(e) => e.checked_add(1),
            None => None,
        };
        sub_stride(stride, self.start().checked_mul(S), hi)
    }
}

impl<'a, T: 'a, const S: usize> StrideIndex<'a, T, S> for RangeTo<usize> {
    type Output = Stride<'a, T, S>;

    open spec fn in_region(&self, stride: Stride<'a, T, S>) -> bool {
        self.end * S <= stride.region().len()
    }

    open spec fn selects(&self, stride: Stride<'a, T, S>, out: Stride<'a, T, S>) -> bool {
        out.region() == stride.region().subrange(0, self.end * S)
    }

    fn get(self, stride: Stride<'a, T, S>) -> (r: Option<Stride<'a, T, S>>) {
        sub_stride(stride, Some(0), self.end.checked_mul(S))
    }
}

impl<'a, T: 'a, const S: usize> StrideIndex<'a, T, S> for RangeToInclusive<usize> {
    type Output = Stride<'a, T, S>;

    open spec fn in_region(&self, stride: Stride<'a, T, S>) -> bool {
        self.end * S + 1 <= stride.region().len()
    }

    open spec fn selects(&self, stride: Stride<'a, T, S>, out: Stride<'a, T, S>) -> bool {
        out.region() == stride.region().subrange(0, self.end * S + 1)
    }

    fn get(self, stride: Stride<'a, T, S>) -> (r: Option<Stride<'a, T, S>>) {
        let hi = match self.end.checked_mul(S) {
            Some(e) => e.checked_add(1),
            None => None,
        };
        sub_stride(stride, Some(0), hi)
    }
}

} // verus!
