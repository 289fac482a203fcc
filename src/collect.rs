//! Building a matrix from a sequence of values, one element at a time.
//!
//! The elements are pulled in column-major order. Each value that was pulled
//! is owned by the block under construction; when the sequence runs out early
//! that block is dropped with the values it holds, and no slot that was never
//! written is ever read or dropped.
use vstd::prelude::*;
use vstd::std_specs::iter::IteratorSpec;

use crate::matrix::Matrix;

verus! {

/// What collecting `items` into a block of `total` elements gives: the first
/// `total` items when there are enough of them, else the number of items.
pub open spec fn collected<T>(items: Seq<T>, total: int) -> Result<Seq<T>, int> {
    if total <= items.len() {
        Ok(items.take(total))
    } else {
        Err(items.len() as int)
    }
}

/// Pulls `M * N` values from `iter` and fills a matrix with them, in
/// column-major order. Values past the first `M * N` are left in the sequence.
///
/// When the sequence holds fewer than `M * N` values, returns `Err` with the
/// number of values it held; they are dropped.
pub fn collect<I, T, const M: usize, const N: usize>(iter: I) -> (r: Result<Matrix<T, M, N>, usize>)
    where
        I: Iterator<Item = T>,
    requires
        M * N <= usize::MAX,
    ensures
        iter.obeys_prophetic_iter_laws() ==> match r {
            Ok(m) => collected(iter.remaining(), M * N) == Ok::<Seq<T>, int>(m@),
            Err(k) => collected(iter.remaining(), M * N) == Err::<Seq<T>, int>(k as int),
        },
{
    let ghost items = iter.remaining();
    let ghost obeys = iter.obeys_prophetic_iter_laws();
    let mut source = iter;
    let total = M * N;
    let mut block: Vec<T> = Vec::new();
    while block.len() < total
        invariant
            total == M * N,
            items == iter.remaining(),
            obeys == iter.obeys_prophetic_iter_laws(),
            block@.len() <= total,
            source.obeys_prophetic_iter_laws() == obeys,
            obeys ==> items.len() >= block@.len(),
            obeys ==> block@ == items.take(block@.len() as int),
            obeys ==> source.remaining() == items.skip(block@.len() as int),
        decreases total - block@.len(),
    {
        match source.next() {
            Some(item) => {
                proof {
                    if obeys {
                        assert(items.skip(block@.len() as int).drop_first() =~= items.skip(
                            block@.len() as int + 1,
                        ));
                    }
                }
                block.push(item);
                proof {
                    if obeys {
                        assert(block@ =~= items.take(block@.len() as int));
                    }
                }
            },
            None => {
                proof {
                    if obeys {
                        assert(items.skip(block@.len() as int).len() == 0);
                    }
                }
                return Err(block.len());
            },
        }
    }
    Ok(Matrix::from_vec(block))
}

/// Like [`collect`], for a sequence that the caller knows to hold at least
/// `M * N` values.
pub fn collect_unchecked<I, T, const M: usize, const N: usize>(iter: I) -> (r: Matrix<T, M, N>)
    where
        I: Iterator<Item = T>,
    requires
        M * N <= usize::MAX,
        iter.obeys_prophetic_iter_laws(),
        M * N <= iter.remaining().len(),
    ensures
        collected(iter.remaining(), M * N) == Ok::<Seq<T>, int>(r@),
{
    match collect(iter) {
        Ok(matrix) => matrix,
        Err(_) => vstd::pervasive::unreached(),
    }
}

} // verus!
