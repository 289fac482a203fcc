//! Properties that hold across the library's operations, proved once for
//! every input.
use vstd::prelude::*;
use vstd::std_specs::cmp::PartialEqSpec;

use crate::collect::collected;
use crate::matrix::{offset_of, Matrix};
use crate::matrix_index::MatrixIndex;
use crate::stride::{lemma_strided_bound, Stride};
use crate::stride_ops::seq_eq;

verus! {

/// Layout: a matrix holds `M * N` elements, and the element at row `i` and
/// column `j` is the flat element at offset `j * M + i`, whether it is reached
/// by its coordinates or by that offset.
pub proof fn lemma_layout<T, const M: usize, const N: usize>(m: Matrix<T, M, N>, i: usize, j: usize)
    requires
        m@.len() == M * N,
        M * N <= usize::MAX,
        i < M,
        j < N,
    ensures
        j * M + i < m@.len(),
        <(usize, usize) as MatrixIndex<T, M, N>>::offset_in(&(i, j), m) == Some(
            offset_of(M as int, i as int, j as int),
        ),
        <usize as MatrixIndex<T, M, N>>::offset_in(&((j * M + i) as usize), m) == Some(
            offset_of(M as int, i as int, j as int),
        ),
        m.at(i as int, j as int) == m@[j * M + i],
{
    assert(j * M + i < M * N) by (nonlinear_arith)
        requires
            i < M,
            j < N,
    ;
}

/// Round trip: collecting a sequence of exactly `M * N` values gives a
/// matrix whose flat elements are that sequence, in the same order.
pub proof fn lemma_collect_round_trip<T>(items: Seq<T>, total: int)
    requires
        items.len() == total,
    ensures
        collected(items, total) == Ok::<Seq<T>, int>(items),
{
    assert(items.take(total) =~= items);
}

/// Partial sequence: collecting fewer values than the matrix holds fails,
/// and reports exactly how many values there were.
pub proof fn lemma_collect_short<T>(items: Seq<T>, total: int)
    requires
        items.len() < total,
    ensures
        collected(items, total) == Err::<Seq<T>, int>(items.len() as int),
{
}

/// Stride correctness: a view with stride `S` over `L` elements has
/// `ceil(L / S)` elements, and its `k`-th element is the element at physical
/// offset `k * S`.
pub proof fn lemma_stride_layout<T, const S: usize>(s: Stride<'_, T, S>, k: int)
    requires
        S >= 1,
        0 <= k < s@.len(),
    ensures
        s@.len() == (s.region().len() + S - 1) / (S as int),
        k * S < s.region().len(),
        s@[k] == s.region()[k * S],
{
    lemma_strided_bound(k, s.region().len() as int, S as int);
}

/// Row and column agreement: the `j`-th element of row `i`, the `i`-th
/// element of column `j` and the element at `(i, j)` are one and the same.
pub proof fn lemma_row_column_agree<T, const M: usize, const N: usize>(
    m: Matrix<T, M, N>,
    i: usize,
    j: usize,
)
    requires
        m@.len() == M * N,
        M * N <= usize::MAX,
        i < M,
        j < N,
    ensures
        m.row_of(i as int)[j as int] == m.column_of(j as int)[i as int],
        <(usize, usize) as MatrixIndex<T, M, N>>::offset_in(&(i, j), m) matches Some(k) && m@[k]
            == m.row_of(i as int)[j as int],
{
}

/// Equality by value: two strided views that show the same elements are
/// equal, whatever their strides and regions, for elements whose equality is
/// the identity.
pub proof fn lemma_equal_by_value<T: PartialEq, const S: usize, const R: usize>(
    a: Stride<'_, T, S>,
    b: Stride<'_, T, R>,
)
    requires
        vstd::laws_eq::obeys_concrete_eq::<T>(),
        a@ == b@,
    ensures
        a.eq_spec(&b),
        seq_eq(a@, b@),
{
    reveal(vstd::laws_eq::obeys_concrete_eq);
}

} // verus!
