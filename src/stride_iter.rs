//! Iteration over the elements of a strided view.
use vstd::prelude::*;

use crate::stride::Stride;

verus! {

/// An iterator over the elements of a [`Stride`], from either end.
///
/// Created by [`Stride::iter`].
#[derive(Debug)]
pub struct Iter<'a, T, const S: usize> {
    stride: Stride<'a, T, S>,
    front: usize,
    back: usize,
}

impl<'a, T, const S: usize> View for Iter<'a, T, S> {
    type V = Seq<T>;

    /// The elements not yet handed out, front to back.
    closed spec fn view(&self) -> Seq<T> {
        self.stride@.subrange(self.front as int, self.back as int)
    }
}

impl<'a, T, const S: usize> Iter<'a, T, S> {
    /// Whether the iterator's positions lie within its view.
    pub closed spec fn wf(&self) -> bool {
        &&& self.front <= self.back <= self.stride@.len()
    }

    pub(crate) fn new(stride: Stride<'a, T, S>) -> (r: Self)
        ensures
            r.wf(),
            r@ == stride@,
    {
        let back = stride.len();
        let r = Iter { stride, front: 0, back };
        assert(r@ =~= stride@);
        r
    }

    /// The element at logical position `i` of the view.
    fn at(&self, i: usize) -> (r: &'a T)
        requires
            self.wf(),
            i < self.stride@.len(),
        ensures
            *r == self.stride@[i as int],
    {
        self.stride.element(i).unwrap()
    }

    /// Hands out the next element from the front, or `None` when none is left.
    pub fn next(&mut self) -> (r: Option<&'a T>)
        requires
            old(self).wf(),
        ensures
            final(self).wf(),
            old(self)@.len() == 0 ==> r is None && final(self)@ == old(self)@,
            old(self)@.len() > 0 ==> r == Some(&old(self)@[0]) && final(self)@ == old(self)@.drop_first(),
    {
        if self.front < self.back {
            let x = self.at(self.front);
            self.front = self.front + 1;
            assert(self@ =~= old(self)@.drop_first());
            Some(x)
        } else {
            None
        }
    }

    /// Hands out the next element from the back, or `None` when none is left.
    pub fn next_back(&mut self) -> (r: Option<&'a T>)
        requires
            old(self).wf(),
        ensures
            final(self).wf(),
            old(self)@.len() == 0 ==> r is None && final(self)@ == old(self)@,
            old(self)@.len() > 0 ==> r == Some(&old(self)@.last()) && final(self)@ == old(self)@.drop_last(),
    {
        if self.front < self.back {
            self.back = self.back - 1;
            let x = self.at(self.back);
            assert(self@ =~= old(self)@.drop_last());
            Some(x)
        } else {
            None
        }
    }

    /// The number of elements not yet handed out.
    pub fn len(&self) -> (r: usize)
        requires
            self.wf(),
        ensures
            r == self@.len(),
    {
        self.back - self.front
    }
}

} // verus!
