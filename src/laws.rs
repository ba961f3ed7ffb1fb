//! Properties that hold across the operations of a view and its cursor.
use vstd::prelude::*;

use crate::iter::yielded;
use crate::uvec::{clamp_to, UVec};

verus! {

/// The length of a view is the sum of the lengths of its two slices.
pub proof fn lemma_len_is_sum<'a, T>(v: &UVec<'a, T>)
    ensures
        v@.len() == v.first().len() + v.second().len(),
{
}

/// A position inside the first slice holds that slice's element; any later
/// position holds the element of the second slice at the offset past the first.
pub proof fn lemma_index_translation<'a, T>(v: &UVec<'a, T>, i: int)
    requires
        0 <= i < v@.len(),
    ensures
        i < v.first().len() ==> v@[i] == v.first()[i],
        i >= v.first().len() ==> v@[i] == v.second()[i - v.first().len()],
{
}

/// The range over all positions holds the same elements as the view.
pub proof fn lemma_full_range<'a, T>(v: &UVec<'a, T>)
    ensures
        v@.subrange(0, v@.len() as int) == v@,
{
    assert(v@.subrange(0, v@.len() as int) =~= v@);
}

/// A range that starts where it ends is empty, at any position up to the end.
pub proof fn lemma_empty_range<'a, T>(v: &UVec<'a, T>, k: int)
    requires
        0 <= k <= v@.len(),
    ensures
        v@.subrange(k, k).len() == 0,
{
}

/// A range from `a` to `b` holds `b - a` elements.
pub proof fn lemma_range_len<'a, T>(v: &UVec<'a, T>, a: int, b: int)
    requires
        0 <= a <= b <= v@.len(),
    ensures
        v@.subrange(a, b).len() == b - a,
{
}

/// From a position `pos` that has not passed the end, `n` calls of `next`
/// yield the elements from `pos` on, in order, and never more than remain.
pub proof fn lemma_yielded_from<T>(items: Seq<T>, pos: nat, n: nat)
    requires
        pos <= items.len(),
    ensures
        yielded(items, pos, n) == items.subrange(pos as int, clamp_to((pos + n) as int, items.len() as int)),
    decreases n,
{
    if n == 0 {
        assert(yielded(items, pos, n) =~= items.subrange(pos as int, pos as int));
    } else if pos < items.len() {
        lemma_yielded_from(items, pos + 1, (n - 1) as nat);
        let end = clamp_to((pos + n) as int, items.len() as int);
        assert(yielded(items, pos, n) =~= items.subrange(pos as int, end));
    } else {
        lemma_yielded_from(items, pos, (n - 1) as nat);
        assert(yielded(items, pos, n) =~= items.subrange(pos as int, pos as int));
    }
}

/// A fresh cursor over a view yields exactly `len()` elements, in order, the
/// `j`-th of them being the view's element at position `j`; calls past the end
/// yield nothing more.
pub proof fn lemma_iteration_matches_index<'a, T>(v: &UVec<'a, T>, n: nat)
    requires
        n >= v@.len(),
    ensures
        yielded(v@, 0, n) == v@,
        yielded(v@, 0, n).len() == v@.len(),
        forall|j: int| 0 <= j < v@.len() ==> #[trigger] yielded(v@, 0, n)[j] == v@[j],
{
    lemma_yielded_from(v@, 0, n);
    assert(v@.subrange(0, v@.len() as int) =~= v@);
}

} // verus!
