//! The matrix type: `M` rows and `N` columns, its elements stored in one
//! contiguous block in column-major order.
use vstd::prelude::*;
use vstd::std_specs::cmp::{OrdSpec, PartialEqSpec, PartialOrdSpec};
use vstd::std_specs::iter::IteratorSpec;
use vstd::std_specs::ops::AddSpec;

use crate::into_iter::IntoIter;
use crate::matrix_index::MatrixIndex;
use crate::matrix_iter::{IterColumns, IterRows};
use crate::stride_ops::{lex_cmp, prefix_eq, seq_eq};
use crate::traits::{Abs, One, Zero};
use crate::view::{lemma_row_len, Column, Row};

verus! {

/// The flat offset of the element at row `i` and column `j` of a matrix with
/// `m` rows: columns are stored one after the other.
pub open spec fn offset_of(m: int, i: int, j: int) -> int {
    j * m + i
}

/// Whether `x` is a value that a closure of type `F`, in some state, can
/// return.
pub open spec fn can_return<F: FnMut() -> T, T>(x: T) -> bool {
    exists|g: F| call_ensures(g, (), x)
}

/// A matrix with `M` rows and `N` columns.
///
/// Its `M * N` elements are stored contiguously in column-major order: the
/// element at row `i` and column `j` sits at flat offset `j * M + i`. The
/// view of a matrix is that flat sequence.
#[derive(Debug, Hash)]
pub struct Matrix<T, const M: usize, const N: usize> {
    data: Vec<T>,
}

/// A matrix with one row and `N` columns.
pub type RowVector<T, const N: usize> = Matrix<T, 1, N>;

/// A matrix with one column and `M` rows.
pub type Vector<T, const M: usize> = Matrix<T, M, 1>;

impl<T, const M: usize, const N: usize> View for Matrix<T, M, N> {
    type V = Seq<T>;

    closed spec fn view(&self) -> Seq<T> {
        self.data@
    }
}

impl<T, const M: usize, const N: usize> Matrix<T, M, N> {
    #[verifier::type_invariant]
    spec fn inv(&self) -> bool {
        self.data@.len() == M * N
    }

    /// The element at row `i` and column `j`.
    pub open spec fn at(&self, i: int, j: int) -> T {
        self@[offset_of(M as int, i, j)]
    }

    /// The `N` elements of row `i`, one per column.
    pub open spec fn row_of(&self, i: int) -> Seq<T> {
        Seq::new(N as nat, |j: int| self.at(i, j))
    }

    /// The `M` elements of column `j`, one per row.
    pub open spec fn column_of(&self, j: int) -> Seq<T> {
        Seq::new(M as nat, |i: int| self.at(i, j))
    }

    /// Wraps a block of exactly `M * N` elements, in column-major order.
    pub(crate) fn from_vec(data: Vec<T>) -> (r: Self)
        requires
            data@.len() == M * N,
        ensures
            r@ == data@,
    {
        Matrix { data }
    }

    /// Creates a matrix from an array of columns: `data[j][i]` is the element
    /// at row `i` and column `j`.
    pub fn from_column_major_order(data: [[T; M]; N]) -> (r: Self)
        where
            T: Copy,
        requires
            M * N <= usize::MAX,
        ensures
            r@.len() == M * N,
            forall|i: int, j: int|
                0 <= i < M && 0 <= j < N ==> #[trigger] r.at(i, j) == data@[j]@[i],
    {
        let mut v: Vec<T> = Vec::new();
        let mut j: usize = 0;
        while j < N
            invariant
                j <= N,
                M * N <= usize::MAX,
                v@.len() == j * M,
                forall|jj: int, ii: int|
                    0 <= jj < j && 0 <= ii < M ==> #[trigger] v@[jj * M + ii] == data@[jj]@[ii],
            decreases N - j,
        {
            let column = data[j];
            let mut i: usize = 0;
            while i < M
                invariant
                    j < N,
                    i <= M,
                    M * N <= usize::MAX,
                    column@ == data@[j as int]@,
                    v@.len() == j * M + i,
                    forall|jj: int, ii: int|
                        0 <= jj < j && 0 <= ii < M ==> #[trigger] v@[jj * M + ii] == data@[jj]@[ii],
                    forall|ii: int| 0 <= ii < i ==> #[trigger] v@[j * M + ii] == column@[ii],
                decreases M - i,
            {
                proof {
                    assert(j * M + i < M * N) by (nonlinear_arith)
                        requires
                            j < N,
                            i < M,
                    ;
                }
                let ghost before = v@;
                v.push(column[i]);
                proof {
                    assert forall|jj: int, ii: int| 0 <= jj < j && 0 <= ii < M implies #[trigger] v@[jj * M + ii] == data@[jj]@[ii] by {
                        assert(jj * M + ii < j * M) by (nonlinear_arith)
                            requires
                                jj < j,
                                ii < M,
                        ;
                        assert(v@[jj * M + ii] == before[jj * M + ii]);
                    }
                }
                i = i + 1;
            }
            proof {
                assert((j + 1) * M == j * M + M) by (nonlinear_arith);
            }
            j = j + 1;
        }
        proof {
            assert(N * M == M * N) by (nonlinear_arith);
        }
        Matrix { data: v }
    }

    /// Returns a matrix filled with the given element.
    pub fn repeat(element: T) -> (r: Self)
        where
            T: Copy,
        requires
            M * N <= usize::MAX,
        ensures
            r@.len() == M * N,
            forall|k: int| 0 <= k < M * N ==> #[trigger] r@[k] == element,
    {
        let total = M * N;
        let mut v: Vec<T> = Vec::new();
        while v.len() < total
            invariant
                total == M * N,
                v@.len() <= total,
                forall|k: int| 0 <= k < v@.len() ==> #[trigger] v@[k] == element,
            decreases total - v@.len(),
        {
            v.push(element);
        }
        Matrix { data: v }
    }

    /// Returns a matrix filled with values computed by `f`, called once per
    /// element in column-major order.
    pub fn repeat_with<F>(f: F) -> (r: Self)
        where
            F: FnMut() -> T,
        requires
            M * N <= usize::MAX,
            forall|g: F| call_requires(g, ()),
        ensures
            r@.len() == M * N,
            forall|k: int| 0 <= k < M * N ==> can_return::<F, T>(#[trigger] r@[k]),
    {
        let mut f = f;
        let total = M * N;
        let mut v: Vec<T> = Vec::new();
        while v.len() < total
            invariant
                total == M * N,
                v@.len() <= total,
                forall|g: F| call_requires(g, ()),
                forall|k: int| 0 <= k < v@.len() ==> can_return::<F, T>(#[trigger] v@[k]),
            decreases total - v@.len(),
        {
            let ghost g = f;
            let ghost before = v@;
            let x = f();
            proof {
                assert(call_ensures(g, (), x));
            }
            v.push(x);
            proof {
                assert(can_return::<F, T>(x));
                assert forall|k: int| 0 <= k < v@.len() implies can_return::<F, T>(#[trigger] v@[k]) by {
                    if k < before.len() {
                        assert(v@[k] == before[k]);
                    }
                }
            }
        }
        Matrix { data: v }
    }

    /// Returns a matrix filled with `T::zero()`.
    pub fn zero() -> (r: Self)
        where
            T: Copy + Zero,
        requires
            M * N <= usize::MAX,
        ensures
            r@.len() == M * N,
            forall|k: int| 0 <= k < M * N ==> #[trigger] r@[k] == T::zero_spec(),
    {
        Self::repeat(T::zero())
    }

    /// Returns a matrix of the same shape, with `f` applied to each element in
    /// column-major order.
    pub fn map<F, U>(self, f: F) -> (r: Matrix<U, M, N>)
        where
            F: Fn(T) -> U,
        requires
            forall|x: T| f.requires((x,)),
        ensures
            r@.len() == M * N,
            forall|k: int| 0 <= k < M * N ==> f.ensures((self@[k],), #[trigger] r@[k]),
    {
        proof {
            use_type_invariant(&self);
        }
        let ghost items = self@;
        let mut out: Vec<U> = Vec::new();
        for x in it: self.data
            invariant
                items.len() == M * N,
                it.seq() == items,
                out@.len() == it.index(),
                forall|x: T| f.requires((x,)),
                forall|k: int| 0 <= k < out@.len() ==> f.ensures((items[k],), #[trigger] out@[k]),
        {
            out.push(f(x));
        }
        Matrix { data: out }
    }

    /// Views the elements as one contiguous slice, in column-major order.
    pub fn as_slice(&self) -> (r: &[T])
        ensures
            r@ == self@,
            r@.len() == M * N,
    {
        proof {
            use_type_invariant(self);
        }
        self.data.as_slice()
    }

    /// An iterator over the elements, in column-major order.
    pub fn iter(&self) -> (r: core::slice::Iter<'_, T>)
        ensures
            r.remaining() == self@.as_ref(),
    {
        self.as_slice().iter()
    }

    /// Returns a reference to the element that `i` selects, or `None` when it
    /// lies outside the matrix.
    pub fn get<I>(&self, i: I) -> (r: Option<&T>)
        where
            I: MatrixIndex<T, M, N>,
        ensures
            match i.offset_in(*self) {
                Some(k) => r == Some(&self@[k]),
                None => r is None,
            },
    {
        i.get(self)
    }

    /// Returns a mutable reference to the element that `i` selects, or `None`
    /// when it lies outside the matrix.
    pub fn get_mut<I>(&mut self, i: I) -> (r: Option<&mut T>)
        where
            I: MatrixIndex<T, M, N>,
        ensures
            match i.offset_in(*old(self)) {
                Some(k) => r is Some && *r.unwrap() == old(self)@[k] && final(self)@ == old(
                    self,
                )@.update(k, *final(r.unwrap())),
                None => r is None && final(self)@ == old(self)@,
            },
    {
        i.get_mut(self)
    }

    /// Returns a reference to the element that `i` selects, which must lie in
    /// the matrix; no check is made at run time beyond the storage's own.
    pub fn get_unchecked<I>(&self, i: I) -> (r: &T)
        where
            I: MatrixIndex<T, M, N>,
        requires
            i.offset_in(*self) is Some,
        ensures
            *r == self@[i.offset_in(*self)->0],
    {
        i.index(self)
    }

    /// Returns a mutable reference to the element that `i` selects, which
    /// must lie in the matrix.
    pub fn get_unchecked_mut<I>(&mut self, i: I) -> (r: &mut T)
        where
            I: MatrixIndex<T, M, N>,
        requires
            i.offset_in(*old(self)) is Some,
        ensures
            *r == old(self)@[i.offset_in(*old(self))->0],
            final(self)@ == old(self)@.update(i.offset_in(*old(self))->0, *final(r)),
    {
        i.index_mut(self)
    }

    /// Returns the element at flat offset `k`.
    pub(crate) fn flat(&self, k: usize) -> (r: &T)
        requires
            k < M * N,
        ensures
            *r == self@[k as int],
    {
        proof {
            use_type_invariant(self);
        }
        &self.data[k]
    }

    /// Returns a mutable reference to the element at flat offset `k`, or
    /// `None` when `k` lies outside the matrix.
    pub(crate) fn flat_mut(&mut self, k: usize) -> (r: Option<&mut T>)
        ensures
            r is Some <==> k < old(self)@.len(),
            r is Some ==> *r.unwrap() == old(self)@[k as int] && final(self)@ == old(self)@.update(
                k as int,
                *final(r.unwrap()),
            ),
            r is None ==> final(self)@ == old(self)@,
    {
        proof {
            use_type_invariant(&*self);
        }
        if k < self.data.len() {
            Some(&mut self.data[k])
        } else {
            None
        }
    }

    /// Returns the `i`-th row of this matrix: a view of its `N` elements, one
    /// per column.
    pub fn row(&self, i: usize) -> (r: Row<'_, T, M, N>)
        requires
            i < M,
        ensures
            r@ == self.row_of(i as int),
    {
        proof {
            use_type_invariant(self);
        }
        let total = self.data.len();
        let start = if i < total { i } else { total };
        proof {
            if N > 0 {
                lemma_row_len(M as int, N as int, i as int);
                assert(i < M * N) by (nonlinear_arith)
                    requires
                        i < M,
                        N > 0,
                ;
            } else {
                assert(M * N == 0) by (nonlinear_arith)
                    requires
                        N == 0,
                ;
                lemma_row_len(M as int, 0, 0);
                assert(M as int * 0 - 0 == 0);
            }
        }
        let region = vstd::slice::slice_subrange(self.data.as_slice(), start, total);
        let r = Row::new(region);
        proof {
            assert forall|j: int| 0 <= j < N implies #[trigger] r@[j] == self.at(i as int, j) by {
                assert(j * M + i < M * N) by (nonlinear_arith)
                    requires
                        0 <= j < N,
                        i < M,
                ;
                assert(i + j * M == j * M + i);
            }
            assert(r@ =~= self.row_of(i as int));
        }
        r
    }

    /// Returns the `j`-th column of this matrix: a view of its `M` elements,
    /// one per row.
    pub fn column(&self, j: usize) -> (r: Column<'_, T, M, N>)
        requires
            j < N,
        ensures
            r@ == self.column_of(j as int),
    {
        proof {
            use_type_invariant(self);
            assert(j * M + M <= M * N) by (nonlinear_arith)
                requires
                    j < N,
            ;
        }
        let total = self.data.len();
        let region = vstd::slice::slice_subrange(self.data.as_slice(), j * M, j * M + M);
        let r = Column::new(region);
        assert(r@ =~= self.column_of(j as int));
        r
    }
}

impl<T, const M: usize, const N: usize> Matrix<T, M, N> {
    /// Consumes the matrix and returns an iterator that moves its elements
    /// out, in column-major order.
    pub fn into_iter(self) -> (r: IntoIter<T, M, N>)
        ensures
            r@ == self@,
    {
        IntoIter::new(self.data)
    }

    /// Returns an iterator over the rows of this matrix, first to last.
    pub fn iter_rows(&self) -> (r: IterRows<'_, T, M, N>)
        ensures
            r.wf(),
            r@ == Seq::new(M as nat, |i: int| self.row_of(i)),
    {
        IterRows::new(self)
    }

    /// Returns an iterator over the columns of this matrix, first to last.
    pub fn iter_columns(&self) -> (r: IterColumns<'_, T, M, N>)
        ensures
            r.wf(),
            r@ == Seq::new(N as nat, |j: int| self.column_of(j)),
    {
        IterColumns::new(self)
    }
}

/// The sum of the absolute values of the first `k` elements of `column`,
/// added from the first on, starting from zero.
pub open spec fn abs_sum<T: Abs + Zero + core::ops::Add<Output = T>>(column: Seq<T>, k: int) -> T
    decreases k,
{
    if k <= 0 {
        T::zero_spec()
    } else {
        abs_sum(column, k - 1).add_spec(column[k - 1].abs_spec())
    }
}

/// Whether every absolute value and every partial sum of `abs_sum(column,
/// column.len())` can be computed.
pub open spec fn abs_sum_defined<T: Abs + Zero + core::ops::Add<Output = T>>(column: Seq<T>) -> bool {
    forall|k: int|
        0 <= k < column.len() ==> (#[trigger] column[k]).abs_req() && abs_sum(column, k).add_req(
            column[k].abs_spec(),
        )
}

/// The greatest of `f(0)`, ..., `f(n - 1)`, taken the way `Ord::max` takes
/// it from left to right: of equal values the later one is kept.
pub open spec fn max_upto<T: Ord>(f: spec_fn(int) -> T, n: int) -> T
    recommends
        n >= 1,
    decreases n,
{
    if n <= 1 {
        f(0)
    } else {
        let acc = max_upto(f, n - 1);
        match f(n - 1).cmp_spec(&acc) {
            core::cmp::Ordering::Less => acc,
            _ => f(n - 1),
        }
    }
}

impl<T, const M: usize, const N: usize> Matrix<T, M, N> where
    T: Copy + Ord + Abs + Zero + core::ops::Add<Output = T>,
 {
    /// The L1 norm of the matrix: the greatest sum of the absolute values of
    /// the elements of a column.
    pub open spec fn l1_norm_spec(&self) -> T {
        if N == 0 {
            T::zero_spec()
        } else {
            max_upto(|j: int| abs_sum(self.column_of(j), M as int), N as int)
        }
    }

    /// Returns the L1 norm of the matrix, also known as the taxicab norm: the
    /// greatest sum of the absolute values of the elements of a column.
    pub fn l1_norm(&self) -> (r: T)
        requires
            T::obeys_add_spec(),
            T::obeys_cmp_spec(),
            forall|j: int| 0 <= j < N ==> abs_sum_defined(#[trigger] self.column_of(j)),
        ensures
            r == self.l1_norm_spec(),
    {
        let ghost f = |j: int| abs_sum(self.column_of(j), M as int);
        let mut best = T::zero();
        let mut j: usize = 0;
        while j < N
            invariant
                j <= N,
                T::obeys_add_spec(),
                T::obeys_cmp_spec(),
                forall|jj: int| 0 <= jj < N ==> abs_sum_defined(#[trigger] self.column_of(jj)),
                f == (|j: int| abs_sum(self.column_of(j), M as int)),
                j == 0 ==> best == T::zero_spec(),
                j > 0 ==> best == max_upto(f, j as int),
            decreases N - j,
        {
            let column = self.column(j);
            let elements = column.as_slice();
            let mut sum = T::zero();
            let mut i: usize = 0;
            while i < M
                invariant
                    i <= M,
                    j < N,
                    T::obeys_add_spec(),
                    elements@ == self.column_of(j as int),
                    abs_sum_defined(self.column_of(j as int)),
                    sum == abs_sum(self.column_of(j as int), i as int),
                decreases M - i,
            {
                let x = elements[i];
                sum = sum + x.abs();
                i = i + 1;
            }
            best = if j == 0 {
                sum
            } else {
                best.max(sum)
            };
            j = j + 1;
        }
        assert(N > 0 ==> self.l1_norm_spec() == max_upto(f, N as int));
        best
    }
}

impl<T, const N: usize> Matrix<T, N, N> {
    /// Returns the identity matrix: one on the diagonal, zero elsewhere.
    pub fn identity() -> (r: Self)
        where
            T: Copy + One + Zero,
        requires
            N * N <= usize::MAX,
        ensures
            forall|i: int, j: int|
                0 <= i < N && 0 <= j < N ==> #[trigger] r.at(i, j) == if i == j {
                    T::one_spec()
                } else {
                    T::zero_spec()
                },
    {
        let mut matrix = Self::zero();
        proof {
            assert forall|ii: int, j: int| 0 <= ii < N && 0 <= j < N implies #[trigger] matrix.at(
                ii,
                j,
            ) == T::zero_spec() by {
                assert(j * N + ii < N * N) by (nonlinear_arith)
                    requires
                        0 <= ii < N,
                        0 <= j < N,
                ;
            }
        }
        let mut i: usize = 0;
        while i < N
            invariant
                i <= N,
                N * N <= usize::MAX,
                matrix@.len() == N * N,
                forall|ii: int, j: int|
                    0 <= ii < N && 0 <= j < N ==> #[trigger] matrix.at(ii, j) == if ii == j && ii
                        < i {
                        T::one_spec()
                    } else {
                        T::zero_spec()
                    },
            decreases N - i,
        {
            proof {
                assert(i * N + i < N * N) by (nonlinear_arith)
                    requires
                        i < N,
                ;
            }
            let ghost before = matrix;
            match matrix.flat_mut(i * N + i) {
                Some(x) => {
                    *x = T::one();
                },
                None => {},
            }
            proof {
                assert forall|ii: int, j: int| 0 <= ii < N && 0 <= j < N implies #[trigger] matrix.at(
                    ii,
                    j,
                ) == if ii == j && ii < i + 1 {
                    T::one_spec()
                } else {
                    T::zero_spec()
                } by {
                    assert(j * N + ii < N * N) by (nonlinear_arith)
                        requires
                            0 <= ii < N,
                            0 <= j < N,
                    ;
                    if ii != i || j != i {
                        assert(j * N + ii != i * N + i) by (nonlinear_arith)
                            requires
                                0 <= ii < N,
                                0 <= j < N,
                                ii != i || j != i,
                        ;
                        assert(matrix.at(ii, j) == before.at(ii, j));
                    }
                }
            }
            i = i + 1;
        }
        matrix
    }

    /// Returns the diagonal of the matrix, as a column vector.
    pub fn diagonal(&self) -> (r: Matrix<T, N, 1>)
        where
            T: Copy,
        ensures
            r@.len() == N,
            forall|i: int| 0 <= i < N ==> #[trigger] r@[i] == self.at(i, i),
    {
        let total = self.as_slice().len();
        let mut v: Vec<T> = Vec::new();
        let mut i: usize = 0;
        while i < N
            invariant
                i <= N,
                self@.len() == N * N,
                N * N <= usize::MAX,
                v@.len() == i,
                forall|k: int| 0 <= k < i ==> #[trigger] v@[k] == self.at(k, k),
            decreases N - i,
        {
            proof {
                assert(i * N + i < N * N) by (nonlinear_arith)
                    requires
                        i < N,
                ;
            }
            v.push(*self.flat(i * N + i));
            i = i + 1;
        }
        Matrix { data: v }
    }
}

impl<T: PartialEq, const M: usize, const N: usize> PartialEq for Matrix<T, M, N> {
    /// Equal when the elements are equal, position by position.
    fn eq(&self, other: &Self) -> (r: bool) {
        let a = self.as_slice();
        let b = other.as_slice();
        let n = a.len();
        let mut k: usize = 0;
        while k < n
            invariant
                a@ == self@,
                b@ == other@,
                n == a@.len() == b@.len(),
                k <= n,
                T::obeys_eq_spec() ==> prefix_eq(self@, other@, k as int),
            decreases n - k,
        {
            if !a[k].eq(&b[k]) {
                return false;
            }
            k = k + 1;
        }
        true
    }
}

impl<T: PartialEq, const M: usize, const N: usize> vstd::std_specs::cmp::PartialEqSpecImpl for Matrix<T, M, N> {
    open spec fn obeys_eq_spec() -> bool {
        T::obeys_eq_spec()
    }

    open spec fn eq_spec(&self, other: &Self) -> bool {
        seq_eq(self@, other@)
    }
}

impl<T: Eq, const M: usize, const N: usize> Eq for Matrix<T, M, N> {}

impl<T: PartialOrd, const M: usize, const N: usize> PartialOrd for Matrix<T, M, N> {
    /// Compares the elements lexicographically, in column-major order.
    fn partial_cmp(&self, other: &Self) -> (r: Option<core::cmp::Ordering>) {
        let a = self.as_slice();
        let b = other.as_slice();
        let n = a.len();
        let mut k: usize = 0;
        assert(self@.subrange(0, n as int) =~= self@);
        assert(other@.subrange(0, n as int) =~= other@);
        while k < n
            invariant
                a@ == self@,
                b@ == other@,
                n == a@.len() == b@.len(),
                k <= n,
                T::obeys_partial_cmp_spec() ==> lex_cmp(self@, other@) == lex_cmp(
                    self@.subrange(k as int, n as int),
                    other@.subrange(k as int, n as int),
                ),
            decreases n - k,
        {
            let o = a[k].partial_cmp(&b[k]);
            match o {
                Some(core::cmp::Ordering::Equal) => {},
                _ => {
                    proof {
                        if T::obeys_partial_cmp_spec() {
                            assert(self@.subrange(k as int, n as int)[0] == self@[k as int]);
                            assert(other@.subrange(k as int, n as int)[0] == other@[k as int]);
                        }
                    }
                    return o;
                },
            }
            proof {
                if T::obeys_partial_cmp_spec() {
                    assert(self@.subrange(k as int, n as int).drop_first() =~= self@.subrange(
                        k as int + 1,
                        n as int,
                    ));
                    assert(other@.subrange(k as int, n as int).drop_first() =~= other@.subrange(
                        k as int + 1,
                        n as int,
                    ));
                }
            }
            k = k + 1;
        }
        Some(core::cmp::Ordering::Equal)
    }
}

impl<T: PartialOrd, const M: usize, const N: usize> vstd::std_specs::cmp::PartialOrdSpecImpl for Matrix<T, M, N> {
    open spec fn obeys_partial_cmp_spec() -> bool {
        T::obeys_partial_cmp_spec()
    }

    open spec fn partial_cmp_spec(&self, other: &Self) -> Option<core::cmp::Ordering> {
        lex_cmp(self@, other@)
    }
}

impl<T: Clone, const M: usize, const N: usize> Clone for Matrix<T, M, N> {
    /// A matrix of clones of the elements.
    fn clone(&self) -> (r: Self)
        ensures
            r@.len() == self@.len(),
            forall|k: int| 0 <= k < self@.len() ==> cloned::<T>(self@[k], #[trigger] r@[k]),
    {
        proof {
            use_type_invariant(self);
        }
        Matrix { data: self.data.clone() }
    }
}

} // verus!
