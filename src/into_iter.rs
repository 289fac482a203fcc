//! Iteration that moves the elements out of a matrix.
use vstd::prelude::*;

use std::collections::VecDeque;

verus! {

/// An iterator that moves the elements out of a matrix, in column-major
/// order, from either end.
///
/// Created by [`Matrix::into_iter`](crate::Matrix::into_iter). The elements
/// not yet handed out are dropped with the iterator.
#[derive(Debug)]
pub struct IntoIter<T, const M: usize, const N: usize> {
    alive: VecDeque<T>,
}

impl<T, const M: usize, const N: usize> View for IntoIter<T, M, N> {
    type V = Seq<T>;

    /// The elements not yet handed out, front to back.
    closed spec fn view(&self) -> Seq<T> {
        self.alive@
    }
}

impl<T, const M: usize, const N: usize> IntoIter<T, M, N> {
    /// An iterator over the elements of `items`.
    pub(crate) fn new(items: Vec<T>) -> (r: Self)
        ensures
            r@ == items@,
    {
        let ghost all = items@;
        let mut alive: VecDeque<T> = VecDeque::new();
        for x in it: items
            invariant
                it.seq() == all,
                alive@ == all.take(it.index() as int),
        {
            alive.push_back(x);
            assert(alive@ =~= all.take(it.index() as int + 1));
        }
        assert(alive@ =~= all);
        IntoIter { alive }
    }

    /// Moves out the next element from the front, or `None` when none is
    /// left.
    pub fn next(&mut self) -> (r: Option<T>)
        ensures
            old(self)@.len() == 0 ==> r is None && final(self)@ == old(self)@,
            old(self)@.len() > 0 ==> r == Some(old(self)@[0]) && final(self)@ == old(
                self,
            )@.drop_first(),
    {
        let r = self.alive.pop_front();
        proof {
            if old(self)@.len() > 0 {
                assert(self@ =~= old(self)@.drop_first());
            }
        }
        r
    }

    /// Moves out the next element from the back, or `None` when none is left.
    pub fn next_back(&mut self) -> (r: Option<T>)
        ensures
            old(self)@.len() == 0 ==> r is None && final(self)@ == old(self)@,
            old(self)@.len() > 0 ==> r == Some(old(self)@.last()) && final(self)@ == old(
                self,
            )@.drop_last(),
    {
        let r = self.alive.pop_back();
        proof {
            if old(self)@.len() > 0 {
                assert(self@ =~= old(self)@.drop_last());
            }
        }
        r
    }

    /// The number of elements not yet handed out.
    pub fn len(&self) -> (r: usize)
        ensures
            r == self@.len(),
    {
        self.alive.len()
    }
}

impl<T: Clone, const M: usize, const N: usize> Clone for IntoIter<T, M, N> {
    /// An iterator over clones of the elements not yet handed out.
    fn clone(&self) -> (r: Self)
        ensures
            r@.len() == self@.len(),
            forall|k: int| 0 <= k < self@.len() ==> cloned::<T>(self@[k], #[trigger] r@[k]),
    {
        IntoIter { alive: self.alive.clone() }
    }
}

} // verus!
