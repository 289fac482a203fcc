//! Comparison and indexing of strided views: two views compare by the
//! elements they show, whatever their strides and regions.
use vstd::prelude::*;
use vstd::std_specs::cmp::{PartialEqSpec, PartialOrdSpec};

use core::cmp::Ordering;

use crate::stride::Stride;

verus! {

/// Whether `a` and `b` have the same length and equal elements, position by
/// position, by the elements' own equality.
pub open spec fn seq_eq<T: PartialEq<U>, U>(a: Seq<T>, b: Seq<U>) -> bool {
    &&& a.len() == b.len()
    &&& forall|k: int| 0 <= k < a.len() ==> (#[trigger] a[k]).eq_spec(&b[k])
}

/// Whether the first `n` elements of `a` and `b` are equal, position by
/// position.
pub open spec fn prefix_eq<T: PartialEq<U>, U>(a: Seq<T>, b: Seq<U>, n: int) -> bool {
    forall|k: int| 0 <= k < n ==> (#[trigger] a[k]).eq_spec(&b[k])
}

/// Compares the elements of a view with those of a slice.
fn partial_eq_slice<'a, T: PartialEq<U>, U, const S: usize>(stride: &Stride<'a, T, S>, other: &[U]) -> (r: bool)
    ensures
        T::obeys_eq_spec() ==> r == seq_eq(stride@, other@),
{
    let n = stride.len();
    if n != other.len() {
        return false;
    }
    let mut it = stride.iter();
    let mut k: usize = 0;
    while k < n
        invariant
            it.wf(),
            n == stride@.len() == other@.len(),
            k <= n,
            it@ == stride@.subrange(k as int, n as int),
            T::obeys_eq_spec() ==> prefix_eq(stride@, other@, k as int),
        decreases n - k,
    {
        let a = it.next().unwrap();
        if !a.eq(&other[k]) {
            return false;
        }
        k = k + 1;
        assert(it@ =~= stride@.subrange(k as int, n as int));
    }
    true
}

impl<'a, 'b, T: PartialEq<U>, U, const S: usize, const R: usize> PartialEq<Stride<'b, U, R>> for Stride<'a, T, S> {
    /// Equal when the two views show equal elements, in the same number.
    fn eq(&self, other: &Stride<'b, U, R>) -> (r: bool) {
        let n = self.len();
        if n != other.len() {
            return false;
        }
        let mut it = self.iter();
        let mut jt = other.iter();
        let mut k: usize = 0;
        while k < n
            invariant
                it.wf(),
                jt.wf(),
                n == self@.len() == other@.len(),
                k <= n,
                it@ == self@.subrange(k as int, n as int),
                jt@ == other@.subrange(k as int, n as int),
                T::obeys_eq_spec() ==> prefix_eq(self@, other@, k as int),
            decreases n - k,
        {
            let a = it.next().unwrap();
            let b = jt.next().unwrap();
            if !a.eq(b) {
                return false;
            }
            k = k + 1;
            assert(it@ =~= self@.subrange(k as int, n as int));
            assert(jt@ =~= other@.subrange(k as int, n as int));
        }
        true
    }
}

impl<'a, 'b, T: PartialEq<U>, U, const S: usize, const R: usize> vstd::std_specs::cmp::PartialEqSpecImpl<Stride<'b, U, R>> for Stride<'a, T, S> {
    open spec fn obeys_eq_spec() -> bool {
        T::obeys_eq_spec()
    }

    open spec fn eq_spec(&self, other: &Stride<'b, U, R>) -> bool {
        seq_eq(self@, other@)
    }
}

impl<'a, 'b, T: PartialEq<U>, U, const S: usize> PartialEq<&'b [U]> for Stride<'a, T, S> {
    /// Equal when the view shows the slice's elements.
    fn eq(&self, other: &&'b [U]) -> (r: bool) {
        partial_eq_slice(self, *other)
    }
}

impl<'a, 'b, T: PartialEq<U>, U, const S: usize> vstd::std_specs::cmp::PartialEqSpecImpl<&'b [U]> for Stride<'a, T, S> {
    open spec fn obeys_eq_spec() -> bool {
        T::obeys_eq_spec()
    }

    open spec fn eq_spec(&self, other: &&'b [U]) -> bool {
        seq_eq(self@, other@)
    }
}

impl<'a, 'b, T: PartialEq<U>, U, const S: usize, const N: usize> PartialEq<&'b [U; N]> for Stride<'a, T, S> {
    /// Equal when the view shows the array's elements.
    fn eq(&self, other: &&'b [U; N]) -> (r: bool) {
        partial_eq_slice(self, vstd::array::array_as_slice(*other))
    }
}

impl<'a, 'b, T: PartialEq<U>, U, const S: usize, const N: usize> vstd::std_specs::cmp::PartialEqSpecImpl<&'b [U; N]> for Stride<'a, T, S> {
    open spec fn obeys_eq_spec() -> bool {
        T::obeys_eq_spec()
    }

    open spec fn eq_spec(&self, other: &&'b [U; N]) -> bool {
        seq_eq(self@, other@)
    }
}

impl<'a, T: Eq, const S: usize> Eq for Stride<'a, T, S> {}

/// Lexicographic comparison of `a` and `b` by the elements' own ordering: the
/// first pair that is not equal decides; when one is a prefix of the other,
/// the shorter is less.
pub open spec fn lex_cmp<T: PartialOrd<U>, U>(a: Seq<T>, b: Seq<U>) -> Option<Ordering>
    decreases a.len(),
{
    if a.len() == 0 || b.len() == 0 {
        if a.len() < b.len() {
            Some(Ordering::Less)
        } else if a.len() == b.len() {
            Some(Ordering::Equal)
        } else {
            Some(Ordering::Greater)
        }
    } else {
        match a[0].partial_cmp_spec(&b[0]) {
            Some(Ordering::Equal) => lex_cmp(a.drop_first(), b.drop_first()),
            o => o,
        }
    }
}

impl<'a, 'b, T: PartialOrd<U>, U, const S: usize, const R: usize> PartialOrd<Stride<'b, U, R>> for Stride<'a, T, S> {
    /// Compares the elements of the two views lexicographically.
    fn partial_cmp(&self, other: &Stride<'b, U, R>) -> (r: Option<Ordering>) {
        let n = self.len();
        let m = other.len();
        let mut it = self.iter();
        let mut jt = other.iter();
        let mut k: usize = 0;
        while k < n && k < m
            invariant
                it.wf(),
                jt.wf(),
                n == self@.len(),
                m == other@.len(),
                k <= n,
                k <= m,
                it@ == self@.subrange(k as int, n as int),
                jt@ == other@.subrange(k as int, m as int),
                T::obeys_partial_cmp_spec() ==> lex_cmp(self@, other@) == lex_cmp(it@, jt@),
            decreases n - k,
        {
            let a = it.next().unwrap();
            let b = jt.next().unwrap();
            let o = a.partial_cmp(b);
            match o {
                Some(Ordering::Equal) => {},
                _ => {
                    return o;
                },
            }
            k = k + 1;
            assert(it@ =~= self@.subrange(k as int, n as int));
            assert(jt@ =~= other@.subrange(k as int, m as int));
        }
        if n < m {
            Some(Ordering::Less)
        } else if n == m {
            Some(Ordering::Equal)
        } else {
            Some(Ordering::Greater)
        }
    }
}

impl<'a, 'b, T: PartialOrd<U>, U, const S: usize, const R: usize> vstd::std_specs::cmp::PartialOrdSpecImpl<Stride<'b, U, R>> for Stride<'a, T, S> {
    open spec fn obeys_partial_cmp_spec() -> bool {
        T::obeys_partial_cmp_spec()
    }

    open spec fn partial_cmp_spec(&self, other: &Stride<'b, U, R>) -> Option<Ordering> {
        lex_cmp(self@, other@)
    }
}

impl<'a, T, const S: usize> core::ops::Index<usize> for Stride<'a, T, S> {
    type Output = T;

    /// The element at logical position `i`; the position must lie in the view.
    fn index(&self, i: usize) -> (r: &T)
        ensures
            *r == self@[i as int],
    {
        crate::stride_index::StrideIndex::<'a, T, S>::index(i, *self)
    }
}

impl<'a, T, const S: usize> vstd::std_specs::core::IndexSpecImpl<usize> for Stride<'a, T, S> {
    open spec fn index_req(&self, i: &usize) -> bool {
        *i < self@.len()
    }
}

} // verus!
