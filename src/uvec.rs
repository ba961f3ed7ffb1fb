//! The two-slice view and its operations.
use vstd::prelude::*;

use crate::iter::Iter;

verus! {

/// The position `i` clamped to the length `n` of the first slice: where a
/// range bound falls inside the first slice.
pub open spec fn clamp_to(i: int, n: int) -> int {
    if i < n { i } else { n }
}

/// The position `i` re-expressed inside the second slice, which starts at `n`:
/// zero for a position inside the first slice.
pub open spec fn offset_past(i: int, n: int) -> int {
    if i < n { 0 } else { i - n }
}

/// Read-only view of two slices as a single continuous vector: logical
/// positions `0 .. first.len()` are the first slice, the rest are the second.
#[derive(Debug)]
pub struct UVec<'a, T> {
    s: (&'a [T], &'a [T]),
}

impl<'a, T> UVec<'a, T> {
    /// The elements of the first slice.
    pub closed spec fn first(&self) -> Seq<T> {
        self.s.0@
    }

    /// The elements of the second slice.
    pub closed spec fn second(&self) -> Seq<T> {
        self.s.1@
    }

    /// The total length fits in a `usize`.
    #[verifier::type_invariant]
    closed spec fn len_fits(&self) -> bool {
        self.s.0@.len() + self.s.1@.len() <= usize::MAX
    }

    /// Constructs a view of the two slices, the first one followed by the second.
    pub fn new(s: (&'a [T], &'a [T])) -> (r: Self)
        requires
            s.0@.len() + s.1@.len() <= usize::MAX,
        ensures
            r.first() == s.0@,
            r.second() == s.1@,
    {
        UVec { s }
    }

    /// Constructs a view with no elements: both slices are empty.
    pub fn empty() -> (r: Self)
        ensures
            r.first() == Seq::<T>::empty(),
            r.second() == Seq::<T>::empty(),
            r@.len() == 0,
    {
        let e: &'a [T] = &[];
        let r = UVec { s: (e, e) };
        assert(r@ =~= Seq::<T>::empty());
        r
    }

    /// Returns the number of elements: the sum of the lengths of both slices.
    pub fn len(&self) -> (r: usize)
        ensures
            r == self@.len(),
    {
        proof {
            use_type_invariant(self);
        }
        self.s.0.len() + self.s.1.len()
    }

    /// Returns `true` when the view has no elements.
    pub fn is_empty(&self) -> (r: bool)
        ensures
            r == (self@.len() == 0),
    {
        self.len() == 0
    }

    /// Returns the element at logical position `index`: position `i` below the
    /// first slice's length is `first[i]`, any other is `second[i - first.len()]`.
    pub fn index(&self, index: usize) -> (r: &T)
        requires
            index < self@.len(),
        ensures
            *r == self@[index as int],
            index < self.first().len() ==> *r == self.first()[index as int],
            index >= self.first().len() ==> *r == self.second()[index - self.first().len()],
    {
        let len = self.s.0.len();
        if index < len {
            &self.s.0[index]
        } else {
            &self.s.1[index - len]
        }
    }

    /// Returns the element at logical position `index`, or `None` when `index`
    /// is not below `len()`.
    pub fn get(&self, index: usize) -> (r: Option<&T>)
        ensures
            index < self@.len() ==> r == Some(&self@[index as int]),
            index >= self@.len() ==> r is None,
    {
        if index < self.len() {
            Some(self.index(index))
        } else {
            None
        }
    }

    /// Returns a new view of the elements at logical positions `start .. end`.
    /// The part of the range inside the first slice becomes the new first
    /// slice, the part inside the second slice the new second slice.
    pub fn range(&self, start: usize, end: usize) -> (r: Self)
        requires
            start <= end <= self@.len(),
        ensures
            r@ == self@.subrange(start as int, end as int),
            r.first() == self.first().subrange(
                clamp_to(start as int, self.first().len() as int),
                clamp_to(end as int, self.first().len() as int),
            ),
            r.second() == self.second().subrange(
                offset_past(start as int, self.first().len() as int),
                offset_past(end as int, self.first().len() as int),
            ),
    {
        let len1 = self.s.0.len();
        let start1 = if start < len1 { start } else { len1 };
        let end1 = if end < len1 { end } else { len1 };
        let start2 = if start < len1 { 0 } else { start - len1 };
        let end2 = if end < len1 { 0 } else { end - len1 };
        let r = Self::new((&self.s.0[start1..end1], &self.s.1[start2..end2]));
        assert(r@ =~= self@.subrange(start as int, end as int));
        r
    }

    /// Returns a cursor over the elements, from position 0.
    pub fn iter(&self) -> (r: Iter<'a, T>)
        ensures
            r.items() == self@,
            r.pos() == 0,
    {
        proof {
            use_type_invariant(self);
        }
        Iter::start(self.s)
    }

    /// Turns the view into a cursor over its elements, from position 0.
    pub fn into_iter(self) -> (r: Iter<'a, T>)
        ensures
            r.items() == self@,
            r.pos() == 0,
    {
        proof {
            use_type_invariant(&self);
        }
        Iter::start(self.s)
    }
}

impl<'a, T> View for UVec<'a, T> {
    type V = Seq<T>;

    /// The logical sequence: the first slice followed by the second.
    open spec fn view(&self) -> Seq<T> {
        self.first() + self.second()
    }
}

} // verus!
