//! Strided views: every `S`-th element of a contiguous region, seen as a
//! sequence of its own.
use vstd::prelude::*;

verus! {

/// Number of logical elements of a strided view with stride `s` over a region
/// of `len` elements: the ceiling of `len / s`.
pub open spec fn strided_len(len: int, s: int) -> int {
    if s <= 0 {
        0
    } else {
        (len + s - 1) / s
    }
}

/// The logical elements of `region` seen with stride `s`: element `k` is the
/// element at physical offset `k * s`.
pub open spec fn strided<T>(region: Seq<T>, s: int) -> Seq<T> {
    Seq::new(strided_len(region.len() as int, s) as nat, |k: int| region[k * s])
}

/// A logical position lies in the view exactly when its physical offset lies
/// in the region.
pub proof fn lemma_strided_bound(k: int, len: int, s: int)
    requires
        0 <= k,
        0 <= len,
        1 <= s,
    ensures
        (k < strided_len(len, s)) <==> (k * s < len),
{
    assert((k < (len + s - 1) / s) <==> (k * s < len)) by (nonlinear_arith)
        requires
            0 <= k,
            0 <= len,
            1 <= s,
    {
        if k * s < len {
            assert(k * s + s <= len + s - 1);
            assert((k + 1) * s <= len + s - 1);
            vstd::arithmetic::div_mod::lemma_div_is_ordered((k + 1) * s, len + s - 1, s);
            vstd::arithmetic::div_mod::lemma_div_multiples_vanish(k + 1, s);
        } else {
            assert(len + s - 1 < (k + 1) * s);
            vstd::arithmetic::div_mod::lemma_div_is_ordered(len + s - 1, (k + 1) * s - 1, s);
            vstd::arithmetic::div_mod::lemma_fundamental_div_mod((k + 1) * s - 1, s);
        }
    }
}

/// A constant strided view over a borrowed region.
///
/// The view holds the region; it shows every `S`-th element of it, starting
/// with the first.
#[derive(Debug)]
pub struct Stride<'a, T, const S: usize> {
    data: &'a [T],
}

impl<'a, T, const S: usize> Clone for Stride<'a, T, S> {
    /// Another view of the same region.
    fn clone(&self) -> (r: Self)
        ensures
            r == *self,
    {
        Stride { data: self.data }
    }
}

impl<'a, T, const S: usize> Copy for Stride<'a, T, S> {}

impl<'a, T, const S: usize> View for Stride<'a, T, S> {
    type V = Seq<T>;

    open spec fn view(&self) -> Seq<T> {
        strided(self.region(), S as int)
    }
}

impl<'a, T, const S: usize> Stride<'a, T, S> {
    /// The borrowed region, every element of it.
    pub closed spec fn region(&self) -> Seq<T> {
        self.data@
    }

    /// Constructs a strided view over `data`, without copying it.
    pub fn new(data: &'a [T]) -> (r: Self)
        ensures
            r.region() == data@,
    {
        Stride { data }
    }

    /// The number of elements of the view: the ceiling of the region's length
    /// divided by `S`. A stride of zero shows no element.
    pub fn len(&self) -> (r: usize)
        ensures
            r == strided_len(self.region().len() as int, S as int),
            r == self@.len(),
    {
        let n = self.data.len();
        if S == 0 {
            return 0;
        }
        let r = if n % S == 0 {
            n / S
        } else {
            proof {
                vstd::arithmetic::div_mod::lemma_div_is_ordered_by_denominator(n as int, 2, S as int);
                vstd::arithmetic::div_mod::lemma_div_is_ordered_by_denominator(n as int, 1, 2);
            }
            n / S + 1
        };
        proof {
            let (l, s) = (n as int, S as int);
            vstd::arithmetic::div_mod::lemma_fundamental_div_mod(l, s);
            vstd::arithmetic::div_mod::lemma_fundamental_div_mod(l + s - 1, s);
            assert(r == (l + s - 1) / s) by (nonlinear_arith)
                requires
                    s >= 1,
                    l >= 0,
                    l == s * (l / s) + l % s,
                    0 <= l % s < s,
                    l + s - 1 == s * ((l + s - 1) / s) + (l + s - 1) % s,
                    0 <= (l + s - 1) % s < s,
                    r == if l % s == 0 { l / s } else { l / s + 1 },
            ;
        }
        r
    }

    /// Returns `true` when the view has no element.
    pub fn is_empty(&self) -> (r: bool)
        ensures
            r == (self@.len() == 0),
    {
        self.len() == 0
    }

    /// The element at logical position `i`, if there is one.
    pub(crate) fn element(&self, i: usize) -> (r: Option<&'a T>)
        ensures
            r is Some <==> i < self@.len(),
            r is Some ==> *r.unwrap() == self@[i as int],
    {
        if i < self.len() {
            let n = self.data.len();
            proof {
                lemma_strided_bound(i as int, self.region().len() as int, S as int);
            }
            Some(&self.data[i * S])
        } else {
            None
        }
    }

    /// Returns the element or sub-view that `index` selects: a position gives
    /// the element there, a range of positions gives the view of the region
    /// between their physical offsets. `None` when it falls outside the region.
    pub fn get<I>(&self, index: I) -> (r: Option<I::Output>)
        where
            I: crate::stride_index::StrideIndex<'a, T, S>,
        ensures
            r is Some <==> index.in_region(*self),
            r matches Some(o) ==> index.selects(*self, o),
    {
        index.get(*self)
    }

    /// Returns the element or sub-view that `index` selects, which must not
    /// fall outside the region.
    pub fn get_unchecked<I>(&self, index: I) -> (r: I::Output)
        where
            I: crate::stride_index::StrideIndex<'a, T, S>,
        requires
            index.in_region(*self),
        ensures
            index.selects(*self, r),
    {
        index.index(*self)
    }

    /// The first element, or `None` when the view is empty.
    pub fn first(&self) -> (r: Option<&'a T>)
        ensures
            r is Some <==> self@.len() > 0,
            r is Some ==> *r.unwrap() == self@[0],
    {
        self.element(0)
    }

    /// The last element, or `None` when the view is empty.
    pub fn last(&self) -> (r: Option<&'a T>)
        ensures
            r is Some <==> self@.len() > 0,
            r is Some ==> *r.unwrap() == self@.last(),
    {
        let n = self.len();
        self.element(if n == 0 { 0 } else { n - 1 })
    }

    /// An iterator over the elements of the view, front to back.
    pub fn iter(&self) -> (r: crate::stride_iter::Iter<'a, T, S>)
        ensures
            r.wf(),
            r@ == self@,
    {
        crate::stride_iter::Iter::new(*self)
    }

    /// The region behind the view, as a slice.
    pub fn region_slice(&self) -> (r: &'a [T])
        ensures
            r@ == self.region(),
    {
        self.data
    }
}

impl<'a, T> Stride<'a, T, 1> {
    /// With a stride of one the view is its region: returns it as a slice.
    pub fn as_slice(&self) -> (r: &'a [T])
        ensures
            r@ == self@,
    {
        assert(self@ =~= self.region()) by {
            let n = self.region().len() as int;
            assert(strided_len(n, 1) == n);
            assert forall|k: int| 0 <= k < n implies #[trigger] self@[k] == self.region()[k] by {
                assert(k * 1 == k);
            }
        }
        self.data
    }
}

impl<'a, T, const S: usize> Default for Stride<'a, T, S> {
    /// A view over an empty region.
    fn default() -> (r: Self)
        ensures
            r.region().len() == 0,
    {
        Stride { data: &[] }
    }
}

} // verus!
