//! A cursor over a two-slice view, and a model of what it yields.
use vstd::prelude::*;

verus! {

/// What one call of `next` yields from a cursor at `pos` over `items`.
pub open spec fn step_item<T>(items: Seq<T>, pos: nat) -> Option<T> {
    if pos < items.len() {
        Some(items[pos as int])
    } else {
        None
    }
}

/// Where a cursor at `pos` over `items` stands after one call of `next`.
pub open spec fn step_pos<T>(items: Seq<T>, pos: nat) -> nat {
    if pos < items.len() {
        pos + 1
    } else {
        pos
    }
}

/// The elements that `n` successive calls of `next` yield from a cursor at
/// `pos` over `items`.
pub open spec fn yielded<T>(items: Seq<T>, pos: nat, n: nat) -> Seq<T>
    decreases n,
{
    if n == 0 {
        Seq::empty()
    } else {
        let rest = yielded(items, step_pos(items, pos), (n - 1) as nat);
        match step_item(items, pos) {
            Some(x) => seq![x] + rest,
            None => rest,
        }
    }
}

/// A cursor over the elements of a `UVec`: the first slice, then the second.
pub struct Iter<'a, T> {
    pos: usize,
    s: (&'a [T], &'a [T]),
}

impl<'a, T> Iter<'a, T> {
    /// The elements the cursor walks over.
    pub closed spec fn items(&self) -> Seq<T> {
        self.s.0@ + self.s.1@
    }

    /// The logical position of the next element to yield.
    pub closed spec fn pos(&self) -> nat {
        self.pos as nat
    }

    /// A cursor at position 0 over the first slice followed by the second.
    pub(crate) fn start(s: (&'a [T], &'a [T])) -> (r: Self)
        requires
            s.0@.len() + s.1@.len() <= usize::MAX,
        ensures
            r.items() == s.0@ + s.1@,
            r.pos() == 0,
    {
        Iter { pos: 0, s }
    }

    /// The position never passes the end, and the end fits in a `usize`.
    #[verifier::type_invariant]
    closed spec fn pos_in_bounds(&self) -> bool {
        self.pos <= self.s.0@.len() + self.s.1@.len() <= usize::MAX
    }

    /// Yields the element at the current position and moves past it, or
    /// `None`, again and again, once every element has been yielded.
    pub fn next(&mut self) -> (r: Option<&'a T>)
        ensures
            final(self).items() == old(self).items(),
            final(self).pos() == step_pos(old(self).items(), old(self).pos()),
            final(self).pos() <= final(self).items().len(),
            match r {
                Some(x) => step_item(old(self).items(), old(self).pos()) == Some(*x),
                None => step_item(old(self).items(), old(self).pos()) is None,
            },
    {
        proof {
            use_type_invariant(&*self);
        }
        let len1 = self.s.0.len();
        let pos = self.pos;
        if pos < len1 {
            self.pos = self.pos + 1;
            Some(&self.s.0[pos])
        } else {
            let len2 = self.s.1.len();
            if pos < len1 + len2 {
                self.pos = self.pos + 1;
                Some(&self.s.1[pos - len1])
            } else {
                None
            }
        }
    }
}

} // verus!
