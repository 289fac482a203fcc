//! Iteration over the rows and the columns of a matrix.
use vstd::prelude::*;

use crate::matrix::Matrix;
use crate::view::{Column, Row};

verus! {

/// An iterator over the rows of a matrix, from either end.
///
/// Created by [`Matrix::iter_rows`].
pub struct IterRows<'a, T, const M: usize, const N: usize> {
    matrix: &'a Matrix<T, M, N>,
    front: usize,
    back: usize,
}

impl<'a, T, const M: usize, const N: usize> View for IterRows<'a, T, M, N> {
    type V = Seq<Seq<T>>;

    /// The rows not yet handed out, front to back.
    closed spec fn view(&self) -> Seq<Seq<T>> {
        Seq::new((self.back - self.front) as nat, |k: int| self.matrix.row_of(self.front + k))
    }
}

impl<'a, T, const M: usize, const N: usize> IterRows<'a, T, M, N> {
    /// Whether the iterator's positions lie within the matrix.
    pub closed spec fn wf(&self) -> bool {
        self.front <= self.back <= M
    }

    pub(crate) fn new(matrix: &'a Matrix<T, M, N>) -> (r: Self)
        ensures
            r.wf(),
            r@ == Seq::new(M as nat, |i: int| matrix.row_of(i)),
    {
        let r = IterRows { matrix, front: 0, back: M };
        assert(r@ =~= Seq::new(M as nat, |i: int| matrix.row_of(i)));
        r
    }

    /// Hands out the next row from the front, or `None` when none is left.
    pub fn next(&mut self) -> (r: Option<Row<'a, T, M, N>>)
        requires
            old(self).wf(),
        ensures
            final(self).wf(),
            old(self)@.len() == 0 ==> r is None && final(self)@ == old(self)@,
            old(self)@.len() > 0 ==> r is Some && r.unwrap()@ == old(self)@[0] && final(self)@
                == old(self)@.drop_first(),
    {
        if self.front < self.back {
            let row = self.matrix.row(self.front);
            self.front = self.front + 1;
            assert(self@ =~= old(self)@.drop_first());
            Some(row)
        } else {
            None
        }
    }

    /// Hands out the next row from the back, or `None` when none is left.
    pub fn next_back(&mut self) -> (r: Option<Row<'a, T, M, N>>)
        requires
            old(self).wf(),
        ensures
            final(self).wf(),
            old(self)@.len() == 0 ==> r is None && final(self)@ == old(self)@,
            old(self)@.len() > 0 ==> r is Some && r.unwrap()@ == old(self)@.last() && final(self)@
                == old(self)@.drop_last(),
    {
        if self.front < self.back {
            self.back = self.back - 1;
            let row = self.matrix.row(self.back);
            assert(self@ =~= old(self)@.drop_last());
            Some(row)
        } else {
            None
        }
    }

    /// The number of rows not yet handed out.
    pub fn len(&self) -> (r: usize)
        requires
            self.wf(),
        ensures
            r == self@.len(),
    {
        self.back - self.front
    }
}

/// An iterator over the columns of a matrix, from either end.
///
/// Created by [`Matrix::iter_columns`].
pub struct IterColumns<'a, T, const M: usize, const N: usize> {
    matrix: &'a Matrix<T, M, N>,
    front: usize,
    back: usize,
}

impl<'a, T, const M: usize, const N: usize> View for IterColumns<'a, T, M, N> {
    type V = Seq<Seq<T>>;

    /// The columns not yet handed out, front to back.
    closed spec fn view(&self) -> Seq<Seq<T>> {
        Seq::new((self.back - self.front) as nat, |k: int| self.matrix.column_of(self.front + k))
    }
}

impl<'a, T, const M: usize, const N: usize> IterColumns<'a, T, M, N> {
    /// Whether the iterator's positions lie within the matrix.
    pub closed spec fn wf(&self) -> bool {
        self.front <= self.back <= N
    }

    pub(crate) fn new(matrix: &'a Matrix<T, M, N>) -> (r: Self)
        ensures
            r.wf(),
            r@ == Seq::new(N as nat, |j: int| matrix.column_of(j)),
    {
        let r = IterColumns { matrix, front: 0, back: N };
        assert(r@ =~= Seq::new(N as nat, |j: int| matrix.column_of(j)));
        r
    }

    /// Hands out the next column from the front, or `None` when none is left.
    pub fn next(&mut self) -> (r: Option<Column<'a, T, M, N>>)
        requires
            old(self).wf(),
        ensures
            final(self).wf(),
            old(self)@.len() == 0 ==> r is None && final(self)@ == old(self)@,
            old(self)@.len() > 0 ==> r is Some && r.unwrap()@ == old(self)@[0] && final(self)@
                == old(self)@.drop_first(),
    {
        if self.front < self.back {
            let column = self.matrix.column(self.front);
            self.front = self.front + 1;
            assert(self@ =~= old(self)@.drop_first());
            Some(column)
        } else {
            None
        }
    }

    /// Hands out the next column from the back, or `None` when none is left.
    pub fn next_back(&mut self) -> (r: Option<Column<'a, T, M, N>>)
        requires
            old(self).wf(),
        ensures
            final(self).wf(),
            old(self)@.len() == 0 ==> r is None && final(self)@ == old(self)@,
            old(self)@.len() > 0 ==> r is Some && r.unwrap()@ == old(self)@.last() && final(self)@
                == old(self)@.drop_last(),
    {
        if self.front < self.back {
            self.back = self.back - 1;
            let column = self.matrix.column(self.back);
            assert(self@ =~= old(self)@.drop_last());
            Some(column)
        } else {
            None
        }
    }

    /// The number of columns not yet handed out.
    pub fn len(&self) -> (r: usize)
        requires
            self.wf(),
        ensures
            r == self@.len(),
    {
        self.back - self.front
    }
}

} // verus!
