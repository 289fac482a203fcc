//! Borrowed views of one row or one column of a matrix.
use vstd::prelude::*;
use vstd::std_specs::cmp::PartialEqSpec;
use vstd::std_specs::ops::{AddSpec, MulSpec};

use crate::stride::{lemma_strided_bound, strided_len, Stride};
use crate::stride_ops::seq_eq;

verus! {

/// A region that starts at row `i` of the first column and runs to the end of
/// a matrix with `m` rows and `n` columns shows `n` elements with stride `m`,
/// one per column.
pub proof fn lemma_row_len(m: int, n: int, i: int)
    requires
        0 <= i < m,
        0 <= n,
    ensures
        strided_len(m * n - i, m) == n,
{
    assert((m * n - i + m - 1) / m == n) by (nonlinear_arith)
        requires
            0 <= i < m,
            0 <= n,
    {
        vstd::arithmetic::div_mod::lemma_fundamental_div_mod(m * n - i + m - 1, m);
        assert(m * n - i + m - 1 == m * n + (m - 1 - i));
        vstd::arithmetic::div_mod::lemma_div_multiples_vanish_fancy(n, m - 1 - i, m);
    }
}

/// A row of a [`Matrix`](crate::Matrix) with `M` rows and `N` columns: a view
/// of its `N` elements, spaced `M` apart in the column-major block.
#[derive(Debug)]
pub struct Row<'a, T, const M: usize, const N: usize> {
    data: Stride<'a, T, M>,
}

impl<'a, T, const M: usize, const N: usize> View for Row<'a, T, M, N> {
    type V = Seq<T>;

    closed spec fn view(&self) -> Seq<T> {
        self.data@
    }
}

impl<'a, T, const M: usize, const N: usize> Row<'a, T, M, N> {
    #[verifier::type_invariant]
    spec fn inv(&self) -> bool {
        self.data@.len() == N
    }

    /// The row that starts at the beginning of `region` and takes every
    /// `M`-th element of it.
    pub(crate) fn new(region: &'a [T]) -> (r: Self)
        requires
            strided_len(region@.len() as int, M as int) == N,
        ensures
            r@.len() == N,
            forall|j: int| 0 <= j < N ==> #[trigger] r@[j] == region@[j * M],
    {
        Row { data: Stride::new(region) }
    }

    /// The row as a strided view.
    pub fn as_stride(&self) -> (r: Stride<'a, T, M>)
        ensures
            r@ == self@,
    {
        self.data
    }

    /// Returns the dot product between this row and a column of matching
    /// length: the sum of the products of their elements, position by
    /// position, added from the first position on.
    pub fn dot<const P: usize>(&self, other: &Column<'_, T, N, P>) -> (r: T)
        where
            T: Copy + crate::traits::Zero + core::ops::Add<Output = T> + core::ops::Mul<
                Output = T,
            >,
        requires
            T::obeys_add_spec(),
            T::obeys_mul_spec(),
            dot_defined(self@, other@, N as int),
        ensures
            r == dot_upto(self@, other@, N as int),
    {
        proof {
            use_type_invariant(self);
            use_type_invariant(other);
        }
        let a = self.data;
        let b = other.as_stride();
        let mut sum = T::zero();
        let mut k: usize = 0;
        while k < N
            invariant
                k <= N,
                a@ == self@,
                b@ == other@,
                a@.len() == N,
                b@.len() == N,
                T::obeys_add_spec(),
                T::obeys_mul_spec(),
                dot_defined(self@, other@, N as int),
                sum == dot_upto(self@, other@, k as int),
            decreases N - k,
        {
            let x = a[k];
            let y = b[k];
            proof {
                assert(dot_upto(self@, other@, k as int + 1) == dot_upto(
                    self@,
                    other@,
                    k as int,
                ).add_spec(self@[k as int].mul_spec(other@[k as int])));
            }
            let p = x * y;
            sum = sum + p;
            k = k + 1;
        }
        sum
    }
}

impl<'a, T, const M: usize, const N: usize> core::ops::Deref for Row<'a, T, M, N> {
    type Target = Stride<'a, T, M>;

    /// The row as a strided view.
    fn deref(&self) -> (r: &Stride<'a, T, M>)
        ensures
            r@ == self@,
    {
        &self.data
    }
}

/// The sum of the products `a[i] * b[i]` for the first `k` positions, added
/// from the first position on, starting from zero.
pub open spec fn dot_upto<T: crate::traits::Zero + core::ops::Add<Output = T> + core::ops::Mul<Output = T>>(a: Seq<T>, b: Seq<T>, k: int) -> T
    decreases k,
{
    if k <= 0 {
        T::zero_spec()
    } else {
        dot_upto(a, b, k - 1).add_spec(a[k - 1].mul_spec(b[k - 1]))
    }
}

/// Whether every product and every partial sum of the dot product of the
/// first `n` positions of `a` and `b` can be computed.
pub open spec fn dot_defined<T: crate::traits::Zero + core::ops::Add<Output = T> + core::ops::Mul<Output = T>>(a: Seq<T>, b: Seq<T>, n: int) -> bool {
    forall|k: int|
        0 <= k < n ==> (#[trigger] a[k]).mul_req(b[k]) && dot_upto(a, b, k).add_req(
            a[k].mul_spec(b[k]),
        )
}

/// A column of a [`Matrix`](crate::Matrix) with `M` rows and `N` columns: a
/// view of its `M` elements, contiguous in the column-major block.
#[derive(Debug)]
pub struct Column<'a, T, const M: usize, const N: usize> {
    data: Stride<'a, T, 1>,
}

impl<'a, T, const M: usize, const N: usize> View for Column<'a, T, M, N> {
    type V = Seq<T>;

    closed spec fn view(&self) -> Seq<T> {
        self.data@
    }
}

impl<'a, T, const M: usize, const N: usize> Column<'a, T, M, N> {
    #[verifier::type_invariant]
    spec fn inv(&self) -> bool {
        self.data@.len() == M
    }

    /// The column made of the elements of `region`.
    pub(crate) fn new(region: &'a [T]) -> (r: Self)
        requires
            region@.len() == M,
        ensures
            r@ == region@,
    {
        let r = Column { data: Stride::new(region) };
        assert(r@ =~= region@) by {
            assert forall|k: int| 0 <= k < M implies #[trigger] r@[k] == region@[k] by {
                assert(k * 1 == k);
            }
            lemma_strided_bound(M as int, M as int, 1);
        }
        r
    }

    /// The column as a strided view with a stride of one.
    pub fn as_stride(&self) -> (r: Stride<'a, T, 1>)
        ensures
            r@ == self@,
    {
        self.data
    }

    /// The column as a slice.
    pub fn as_slice(&self) -> (r: &'a [T])
        ensures
            r@ == self@,
    {
        self.data.as_slice()
    }
}

impl<'a, T, const M: usize, const N: usize> core::ops::Deref for Column<'a, T, M, N> {
    type Target = Stride<'a, T, 1>;

    /// The column as a strided view with a stride of one.
    fn deref(&self) -> (r: &Stride<'a, T, 1>)
        ensures
            r@ == self@,
    {
        &self.data
    }
}

impl<'a, 'b, T: PartialEq, const M: usize, const N: usize> PartialEq<Row<'b, T, M, N>> for Row<'a, T, M, N> {
    /// Equal when the two rows hold equal elements.
    fn eq(&self, other: &Row<'b, T, M, N>) -> (r: bool) {
        self.data.eq(&other.data)
    }
}

impl<'a, 'b, T: PartialEq, const M: usize, const N: usize> vstd::std_specs::cmp::PartialEqSpecImpl<Row<'b, T, M, N>> for Row<'a, T, M, N> {
    open spec fn obeys_eq_spec() -> bool {
        T::obeys_eq_spec()
    }

    open spec fn eq_spec(&self, other: &Row<'b, T, M, N>) -> bool {
        seq_eq(self@, other@)
    }
}

impl<'a, 'b, T: PartialEq, const M: usize, const N: usize> PartialEq<Column<'b, T, M, N>> for Column<'a, T, M, N> {
    /// Equal when the two columns hold equal elements.
    fn eq(&self, other: &Column<'b, T, M, N>) -> (r: bool) {
        self.data.eq(&other.data)
    }
}

impl<'a, 'b, T: PartialEq, const M: usize, const N: usize> vstd::std_specs::cmp::PartialEqSpecImpl<Column<'b, T, M, N>> for Column<'a, T, M, N> {
    open spec fn obeys_eq_spec() -> bool {
        T::obeys_eq_spec()
    }

    open spec fn eq_spec(&self, other: &Column<'b, T, M, N>) -> bool {
        seq_eq(self@, other@)
    }
}

} // verus!
