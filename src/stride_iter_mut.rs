//! Iteration over the elements of a mutable strided view, each handed out as
//! a mutable reference.
use vstd::prelude::*;

use crate::stride::{lemma_strided_bound, strided, strided_len};

verus! {

/// Dropping the first element of a strided view leaves the view of the
/// region from the next element on.
proof fn lemma_drop_first_stride<T>(region: Seq<T>, s: int)
    requires
        s >= 1,
        region.len() >= 1,
    ensures
        strided(region, s).drop_first() =~= strided(
            region.subrange(if s <= region.len() { s } else { region.len() as int }, region.len() as int),
            s,
        ),
{
    let n = region.len() as int;
    let start = if s <= n { s } else { n };
    let after = region.subrange(start, n);
    assert(strided_len(n, s) == strided_len(n - start, s) + 1) by (nonlinear_arith)
        requires
            s >= 1,
            n >= 1,
            start == if s <= n { s } else { n },
    {
        if s <= n {
            vstd::arithmetic::div_mod::lemma_div_plus_one(n - s + s - 1, s);
            assert(n - s + s - 1 + s == n + s - 1);
        } else {
            vstd::arithmetic::div_mod::lemma_div_is_ordered(n + s - 1, 2 * s - 1, s);
            vstd::arithmetic::div_mod::lemma_fundamental_div_mod(2 * s - 1, s);
            vstd::arithmetic::div_mod::lemma_div_is_ordered(s, n + s - 1, s);
            vstd::arithmetic::div_mod::lemma_div_by_self(s);
            vstd::arithmetic::div_mod::lemma_div_basics(s - 1);
        }
    }
    assert forall|k: int| 0 <= k < strided_len(n - start, s) implies #[trigger] strided(after, s)[k] == strided(region, s)[k + 1] by {
        lemma_strided_bound(k, n - start, s);
        assert(start + k * s == (k + 1) * s) by (nonlinear_arith)
            requires
                k * s < n - start,
                start == if s <= n { s } else { n },
                k >= 0,
                s >= 1,
        ;
    }
}

/// Dropping the last element of a strided view leaves the view of the region
/// up to that element.
proof fn lemma_drop_last_stride<T>(region: Seq<T>, s: int)
    requires
        s >= 1,
        region.len() >= 1,
    ensures
        0 <= (region.len() - 1) / s * s < region.len(),
        strided(region, s).len() >= 1,
        strided(region, s).last() == region[(region.len() - 1) / s * s],
        strided(region, s).drop_last() =~= strided(
            region.subrange(0, (region.len() - 1) / s * s),
            s,
        ),
{
    let n = region.len() as int;
    let q = (n - 1) / s;
    let last = q * s;
    assert(0 <= last <= n - 1 && q >= 0) by (nonlinear_arith)
        requires
            s >= 1,
            n >= 1,
            q == (n - 1) / s,
            last == q * s,
    {
        vstd::arithmetic::div_mod::lemma_fundamental_div_mod(n - 1, s);
    }
    assert(strided_len(n, s) == q + 1) by (nonlinear_arith)
        requires
            s >= 1,
            n >= 1,
            q == (n - 1) / s,
    {
        vstd::arithmetic::div_mod::lemma_div_plus_one(n - 1, s);
    }
    assert(strided_len(last, s) == q) by (nonlinear_arith)
        requires
            s >= 1,
            q >= 0,
            last == q * s,
    {
        vstd::arithmetic::div_mod::lemma_div_multiples_vanish_fancy(q, s - 1, s);
    }
    let before = region.subrange(0, last);
    assert forall|k: int| 0 <= k < q implies #[trigger] strided(before, s)[k] == strided(region, s)[k] by {
        lemma_strided_bound(k, last, s);
    }
}

/// An iterator over mutable references to the elements of a
/// [`StrideMut`](crate::StrideMut), front to back.
///
/// Created by [`StrideMut::iter_mut`](crate::StrideMut::iter_mut).
#[derive(Debug)]
pub struct IterMut<'a, T, const S: usize> {
    /// The part of the region from the next element on.
    pub rest: &'a mut [T],
}

impl<'a, T, const S: usize> View for IterMut<'a, T, S> {
    type V = Seq<T>;

    /// The elements not yet handed out, front to back.
    open spec fn view(&self) -> Seq<T> {
        strided(self.rest@, S as int)
    }
}

impl<'a, T, const S: usize> IterMut<'a, T, S> {
    /// Hands out the next element, or `None` when none is left. A write
    /// through the reference lands in the region; the elements between it and
    /// the next one are left as they are.
    pub fn next(&mut self) -> (r: Option<&'a mut T>)
        ensures
            old(self)@.len() == 0 ==> r is None && final(self).rest@ == old(self).rest@,
            old(self)@.len() > 0 ==> r is Some && *r.unwrap() == old(self)@[0] && final(self)@
                == old(self)@.drop_first() && final(old(self).rest)@ == seq![*final(r.unwrap())]
                + old(self).rest@.subrange(1, old(self).rest@.len() - final(self).rest@.len())
                + final(final(self).rest)@,
    {
        let n = self.rest.len();
        proof {
            if S >= 1 {
                lemma_strided_bound(0, n as int, S as int);
            }
        }
        if n == 0 || S == 0 {
            return None;
        }
        let ghost old_rest = self.rest@;
        let mut taken: &'a mut [T] = &mut [];
        core::mem::swap(&mut taken, &mut self.rest);
        assert(taken@ == old_rest);
        let (head, tail) = taken.split_at_mut(1);
        let skip = if S - 1 < tail.len() { S - 1 } else { tail.len() };
        let (gap, after) = tail.split_at_mut(skip);
        assert(after@ =~= old_rest.subrange(1 + skip, n as int));
        self.rest = after;
        let r = &mut head[0];
        proof {
            lemma_drop_first_stride(old_rest, S as int);
        }
        Some(r)
    }

    /// Hands out the next element from the back, or `None` when none is left.
    /// A write through the reference lands in the region.
    pub fn next_back(&mut self) -> (r: Option<&'a mut T>)
        ensures
            old(self)@.len() == 0 ==> r is None && final(self).rest@ == old(self).rest@,
            old(self)@.len() > 0 ==> r is Some && *r.unwrap() == old(self)@.last() && final(self)@
                == old(self)@.drop_last() && final(old(self).rest)@ == final(final(self).rest)@
                + seq![*final(r.unwrap())] + old(self).rest@.subrange(
                final(self).rest@.len() as int + 1,
                old(self).rest@.len() as int,
            ),
    {
        let n = self.rest.len();
        proof {
            if S >= 1 {
                lemma_strided_bound(0, n as int, S as int);
            }
        }
        if n == 0 || S == 0 {
            return None;
        }
        proof {
            lemma_drop_last_stride(self.rest@, S as int);
        }
        let last = (n - 1) / S * S;
        let ghost old_rest = self.rest@;
        let mut taken: &'a mut [T] = &mut [];
        core::mem::swap(&mut taken, &mut self.rest);
        assert(taken@ == old_rest);
        let (before, tail) = taken.split_at_mut(last);
        self.rest = before;
        let r = &mut tail[0];
        Some(r)
    }

    /// The number of elements not yet handed out.
    pub fn len(&self) -> (r: usize)
        ensures
            r == self@.len(),
    {
        crate::stride::Stride::<T, S>::new(self.rest).len()
    }
}

} // verus!
