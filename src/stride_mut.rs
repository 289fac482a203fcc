//! Mutable strided views: every `S`-th element of a mutably borrowed region,
//! which can be read and written through the view.
use vstd::prelude::*;

use crate::stride::{lemma_strided_bound, strided, strided_len, Stride};

verus! {

/// A mutable strided view over a borrowed region.
///
/// It shows every `S`-th element of `data`, starting with the first; writes
/// through the view land in the region.
#[derive(Debug)]
pub struct StrideMut<'a, T, const S: usize> {
    /// The region behind the view.
    pub data: &'a mut [T],
}

impl<'a, T, const S: usize> View for StrideMut<'a, T, S> {
    type V = Seq<T>;

    open spec fn view(&self) -> Seq<T> {
        strided(self.data@, S as int)
    }
}

impl<'a, T, const S: usize> StrideMut<'a, T, S> {
    /// The region behind the view, every element of it.
    pub open spec fn region(&self) -> Seq<T> {
        self.data@
    }

    /// Constructs a mutable strided view over `data`, without copying it.
    pub fn new_mut(data: &'a mut [T]) -> (r: Self)
        ensures
            r.data@ == old(data)@,
            final(data)@ == final(r.data)@,
    {
        StrideMut { data }
    }

    /// The number of elements of the view: the ceiling of the region's length
    /// divided by `S`. A stride of zero shows no element.
    pub fn len(&self) -> (r: usize)
        ensures
            r == strided_len(self.region().len() as int, S as int),
            r == self@.len(),
    {
        self.as_stride().len()
    }

    /// Returns `true` when the view has no element.
    pub fn is_empty(&self) -> (r: bool)
        ensures
            r == (self@.len() == 0),
    {
        self.len() == 0
    }

    /// A shared view of the same region, for as long as this one is borrowed.
    pub fn as_stride(&self) -> (r: Stride<'_, T, S>)
        ensures
            r.region() == self.region(),
            r@ == self@,
    {
        Stride::new(self.data)
    }

    /// The element at logical position `i`, if there is one.
    pub fn get(&self, i: usize) -> (r: Option<&T>)
        ensures
            r is Some <==> i < self@.len(),
            r is Some ==> *r.unwrap() == self@[i as int],
    {
        self.as_stride().element(i)
    }

    /// A mutable reference to the element at logical position `i`, if there is
    /// one; a write through it lands at physical offset `i * S` of the region.
    pub fn get_mut(&mut self, i: usize) -> (r: Option<&mut T>)
        ensures
            r is Some <==> i < old(self)@.len(),
            r is Some ==> *r.unwrap() == old(self)@[i as int] && final(self).data@
                == old(self).data@.update(i * S, *final(r.unwrap())),
            r is None ==> final(self).data@ == old(self).data@,
    {
        if i < self.len() {
            let n = self.data.len();
            proof {
                lemma_strided_bound(i as int, n as int, S as int);
            }
            Some(&mut self.data[i * S])
        } else {
            None
        }
    }

    /// A mutable reference to the element at logical position `i`, which must
    /// lie in the view.
    pub fn get_unchecked_mut(&mut self, i: usize) -> (r: &mut T)
        requires
            i < old(self)@.len(),
        ensures
            *r == old(self)@[i as int],
            final(self).data@ == old(self).data@.update(i * S, *final(r)),
    {
        match self.get_mut(i) {
            Some(x) => x,
            None => vstd::pervasive::unreached(),
        }
    }

    /// An iterator over mutable references to the elements of the view, front
    /// to back; writes through them land in the region.
    pub fn iter_mut(&mut self) -> (r: crate::stride_iter_mut::IterMut<'_, T, S>)
        ensures
            r.rest@ == old(self).data@,
            r@ == old(self)@,
            final(self).data@ == final(r.rest)@,
    {
        crate::stride_iter_mut::IterMut { rest: &mut *self.data }
    }

    /// The first element, or `None` when the view is empty.
    pub fn first(&self) -> (r: Option<&T>)
        ensures
            r is Some <==> self@.len() > 0,
            r is Some ==> *r.unwrap() == self@[0],
    {
        self.get(0)
    }

    /// A mutable reference to the first element, or `None` when the view is
    /// empty.
    pub fn first_mut(&mut self) -> (r: Option<&mut T>)
        ensures
            r is Some <==> old(self)@.len() > 0,
            r is Some ==> *r.unwrap() == old(self)@[0] && final(self).data@ == old(
                self,
            ).data@.update(0, *final(r.unwrap())),
            r is None ==> final(self).data@ == old(self).data@,
    {
        self.get_mut(0)
    }

    /// The last element, or `None` when the view is empty.
    pub fn last(&self) -> (r: Option<&T>)
        ensures
            r is Some <==> self@.len() > 0,
            r is Some ==> *r.unwrap() == self@.last(),
    {
        self.as_stride().last()
    }

    /// A mutable reference to the last element, or `None` when the view is
    /// empty.
    pub fn last_mut(&mut self) -> (r: Option<&mut T>)
        ensures
            r is Some <==> old(self)@.len() > 0,
            r is Some ==> *r.unwrap() == old(self)@.last() && final(self).data@ == old(
                self,
            ).data@.update((old(self)@.len() - 1) * S, *final(r.unwrap())),
            r is None ==> final(self).data@ == old(self).data@,
    {
        let n = self.len();
        self.get_mut(if n == 0 { 0 } else { n - 1 })
    }

    /// Exchanges the elements at logical positions `a` and `b`.
    pub fn swap(&mut self, a: usize, b: usize)
        requires
            a < old(self)@.len(),
            b < old(self)@.len(),
        ensures
            final(self)@ == old(self)@.update(a as int, old(self)@[b as int]).update(
                b as int,
                old(self)@[a as int],
            ),
            final(self).data@.len() == old(self).data@.len(),
    {
        let n = self.data.len();
        proof {
            lemma_strided_bound(a as int, n as int, S as int);
            lemma_strided_bound(b as int, n as int, S as int);
        }
        let (x, y) = (a * S, b * S);
        let ghost d0 = self.data@;
        if x != y {
            let (lo, hi) = if x < y { (x, y) } else { (y, x) };
            let (left, right) = self.data.split_at_mut(hi);
            core::mem::swap(&mut left[lo], &mut right[0]);
        }
        proof {
            let want = old(self)@.update(a as int, old(self)@[b as int]).update(
                b as int,
                old(self)@[a as int],
            );
            assert(self.data@ =~= d0.update(x as int, d0[y as int]).update(y as int, d0[x as int]));
            assert(self.data@.len() == d0.len());
            assert forall|k: int| 0 <= k < self@.len() implies #[trigger] self@[k] == want[k] by {
                lemma_strided_bound(k, n as int, S as int);
                if k != a as int {
                    assert(k * S != a * S) by (nonlinear_arith)
                        requires
                            k != a,
                            S >= 1,
                    ;
                }
                if k != b as int {
                    assert(k * S != b * S) by (nonlinear_arith)
                        requires
                            k != b,
                            S >= 1,
                    ;
                }
            }
            assert(self@ =~= want);
        }
    }
}

impl<'a, T> StrideMut<'a, T, 1> {
    /// With a stride of one the view is its region: returns it as a mutable
    /// slice.
    pub fn as_mut_slice(&mut self) -> (r: &mut [T])
        ensures
            r@ == old(self)@,
            final(self).data@ == final(r)@,
    {
        let n = self.len();
        assert(old(self)@ =~= old(self).data@) by {
            assert(strided_len(n as int, 1) == n);
            assert forall|k: int| 0 <= k < n implies #[trigger] old(self)@[k] == old(self).data@[k] by {
                assert(k * 1 == k);
            }
        }
        &mut *self.data
    }
}

impl<'a, T, const S: usize> Default for StrideMut<'a, T, S> {
    /// A mutable view over an empty region.
    fn default() -> (r: Self)
        ensures
            r.data@.len() == 0,
    {
        StrideMut { data: &mut [] }
    }
}

} // verus!
