//! Indexes into a matrix: a flat offset, or a (row, column) pair.
use vstd::prelude::*;

use crate::matrix::Matrix;
use crate::sealed::Sealed;

verus! {

/// An index into a [`Matrix`]: a flat offset into its column-major block, or a
/// `(row, column)` pair.
pub trait MatrixIndex<T, const M: usize, const N: usize>: Sealed + Sized {
    /// The flat offset into `matrix` that the index stands for, or `None`
    /// when it lies outside the matrix.
    spec fn offset_in(&self, matrix: Matrix<T, M, N>) -> Option<int>;

    /// A reference to the element that the index selects, or `None`.
    fn get(self, matrix: &Matrix<T, M, N>) -> (r: Option<&T>)
        ensures
            match self.offset_in(*matrix) {
                Some(k) => r == Some(&matrix@[k]),
                None => r is None,
            },
    ;

    /// A mutable reference to the element that the index selects, or `None`.
    fn get_mut(self, matrix: &mut Matrix<T, M, N>) -> (r: Option<&mut T>)
        ensures
            match self.offset_in(*old(matrix)) {
                Some(k) => r is Some && *r.unwrap() == old(matrix)@[k] && final(matrix)@ == old(
                    matrix,
                )@.update(k, *final(r.unwrap())),
                None => r is None && final(matrix)@ == old(matrix)@,
            },
    ;

    /// A reference to the element that the index selects, which must lie in
    /// the matrix.
    fn index(self, matrix: &Matrix<T, M, N>) -> (r: &T)
        requires
            self.offset_in(*matrix) is Some,
        ensures
            *r == matrix@[self.offset_in(*matrix)->0],
    ;

    /// A mutable reference to the element that the index selects, which must
    /// lie in the matrix.
    fn index_mut(self, matrix: &mut Matrix<T, M, N>) -> (r: &mut T)
        requires
            self.offset_in(*old(matrix)) is Some,
        ensures
            *r == old(matrix)@[self.offset_in(*old(matrix))->0],
            final(matrix)@ == old(matrix)@.update(
                self.offset_in(*old(matrix))->0,
                *final(r),
            ),
    ;
}

impl<T, const M: usize, const N: usize> MatrixIndex<T, M, N> for usize {
    open spec fn offset_in(&self, matrix: Matrix<T, M, N>) -> Option<int> {
        if *self < M * N {
            Some(*self as int)
        } else {
            None
        }
    }

    fn get(self, matrix: &Matrix<T, M, N>) -> (r: Option<&T>) {
        let n = matrix.as_slice().len();
        if self < n {
            Some(matrix.flat(self))
        } else {
            None
        }
    }

    fn get_mut(self, matrix: &mut Matrix<T, M, N>) -> (r: Option<&mut T>) {
        let n = matrix.as_slice().len();
        matrix.flat_mut(self)
    }

    fn index(self, matrix: &Matrix<T, M, N>) -> (r: &T) {
        matrix.flat(self)
    }

    fn index_mut(self, matrix: &mut Matrix<T, M, N>) -> (r: &mut T) {
        let n = matrix.as_slice().len();
        match matrix.flat_mut(self) {
            Some(x) => x,
            None => vstd::pervasive::unreached(),
        }
    }
}

impl<T, const M: usize, const N: usize> MatrixIndex<T, M, N> for (usize, usize) {
    open spec fn offset_in(&self, matrix: Matrix<T, M, N>) -> Option<int> {
        if self.0 < M && self.1 < N {
            Some(self.1 * M + self.0)
        } else {
            None
        }
    }

    fn get(self, matrix: &Matrix<T, M, N>) -> (r: Option<&T>) {
        let n = matrix.as_slice().len();
        let (i, j) = self;
        if i < M && j < N {
            proof {
                assert(j * M + i < M * N) by (nonlinear_arith)
                    requires
                        i < M,
                        j < N,
                ;
            }
            Some(matrix.flat(j * M + i))
        } else {
            None
        }
    }

    fn get_mut(self, matrix: &mut Matrix<T, M, N>) -> (r: Option<&mut T>) {
        let n = matrix.as_slice().len();
        let (i, j) = self;
        if i < M && j < N {
            proof {
                assert(j * M + i < M * N) by (nonlinear_arith)
                    requires
                        i < M,
                        j < N,
                ;
            }
            matrix.flat_mut(j * M + i)
        } else {
            None
        }
    }

    fn index(self, matrix: &Matrix<T, M, N>) -> (r: &T) {
        let (i, j) = self;
        let n = matrix.as_slice().len();
        proof {
            assert(j * M + i < M * N) by (nonlinear_arith)
                requires
                    i < M,
                    j < N,
            ;
        }
        matrix.flat(j * M + i)
    }

    fn index_mut(self, matrix: &mut Matrix<T, M, N>) -> (r: &mut T) {
        let (i, j) = self;
        let n = matrix.as_slice().len();
        proof {
            assert(j * M + i < M * N) by (nonlinear_arith)
                requires
                    i < M,
                    j < N,
            ;
        }
        match matrix.flat_mut(j * M + i) {
            Some(x) => x,
            None => vstd::pervasive::unreached(),
        }
    }
}

impl<T, const M: usize, const N: usize> core::ops::Index<usize> for Matrix<T, M, N> {
    type Output = T;

    /// The element at flat offset `k`; the offset must lie in the matrix.
    fn index(&self, k: usize) -> (r: &T)
        ensures
            *r == self@[k as int],
    {
        MatrixIndex::<T, M, N>::index(k, self)
    }
}

impl<T, const M: usize, const N: usize> vstd::std_specs::core::IndexSpecImpl<usize> for Matrix<T, M, N> {
    open spec fn index_req(&self, k: &usize) -> bool {
        *k < M * N
    }
}

impl<T, const M: usize, const N: usize> core::ops::Index<(usize, usize)> for Matrix<T, M, N> {
    type Output = T;

    /// The element at row `i` and column `j`; both must lie in the matrix.
    fn index(&self, index: (usize, usize)) -> (r: &T)
        ensures
            *r == self.at(index.0 as int, index.1 as int),
    {
        MatrixIndex::<T, M, N>::index(index, self)
    }
}

impl<T, const M: usize, const N: usize> vstd::std_specs::core::IndexSpecImpl<(usize, usize)> for Matrix<T, M, N> {
    open spec fn index_req(&self, index: &(usize, usize)) -> bool {
        index.0 < M && index.1 < N
    }
}

} // verus!
