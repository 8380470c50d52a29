//! A vector that keeps up to `S` items inline before it spills to the heap.
//!
//! Both representations are held in a `Vec`; `inline` records which one
//! the vector is in, and an inline vector never holds more than `S` items.
use vstd::prelude::*;

verus! {

/// A vector of `T` that stays inline while it holds at most `S` items.
#[derive(Clone)]
pub struct InlineVec<T, const S: usize> {
    inline: bool,
    items: Vec<T>,
}

impl<T, const S: usize> View for InlineVec<T, S> {
    type V = Seq<T>;

    closed spec fn view(&self) -> Seq<T> {
        self.items@
    }
}

impl<T, const S: usize> InlineVec<T, S> {
    /// Whether the items are held inline.
    pub closed spec fn spec_inline(&self) -> bool {
        self.inline
    }

    /// An inline vector holds at most `S` items.
    pub closed spec fn wf(&self) -> bool {
        self.inline ==> self.items@.len() <= S
    }

    /// An empty inline vector.
    pub fn new() -> (r: Self)
        ensures
            r.wf(),
            r@ == Seq::<T>::empty(),
            r.spec_inline(),
    {
        InlineVec { inline: true, items: Vec::new() }
    }

    /// An empty vector: inline when `capacity` fits in `S`, on the heap
    /// otherwise.
    pub fn with_capacity(capacity: usize) -> (r: Self)
        ensures
            r.wf(),
            r@ == Seq::<T>::empty(),
            r.spec_inline() == (capacity <= S),
    {
        if capacity <= S {
            InlineVec { inline: true, items: Vec::new() }
        } else {
            InlineVec { inline: false, items: Vec::with_capacity(capacity) }
        }
    }

    /// Whether the vector holds no items.
    pub fn is_empty(&self) -> (r: bool)
        ensures
            r == (self@.len() == 0),
    {
        self.len() == 0
    }

    /// The number of items.
    pub fn len(&self) -> (r: usize)
        ensures
            r == self@.len(),
    {
        self.items.len()
    }

    /// The items, in order.
    pub fn as_slice(&self) -> (r: &[T])
        ensures
            r@ == self@,
    {
        self.items.as_slice()
    }

    /// Appends `value`.  A full inline vector moves to the heap.
    pub fn push(&mut self, value: T)
        requires
            old(self).wf(),
        ensures
            final(self).wf(),
            final(self)@ == old(self)@.push(value),
            final(self).spec_inline() == (old(self).spec_inline() && old(self)@.len() < S),
    {
        if self.inline && self.items.len() == S {
            self.inline = false;
        }
        self.items.push(value);
    }

    /// Removes the last item and returns it, or `None` if the vector is
    /// empty.
    pub fn pop(&mut self) -> (r: Option<T>)
        requires
            old(self).wf(),
        ensures
            final(self).wf(),
            final(self).spec_inline() == old(self).spec_inline(),
            match r {
                Some(x) => old(self)@.len() > 0 && x == old(self)@.last() && final(self)@ == old(
                    self,
                )@.drop_last(),
                None => old(self)@.len() == 0 && final(self)@ == old(self)@,
            },
    {
        self.items.pop()
    }

    /// An iterator over the items, taking them out in order.
    pub fn into_iter(self) -> (r: IntoIter<T, S>)
        ensures
            r@ == self@,
    {
        let mut items = self.items;
        let ghost all = items@;
        let mut rev: Vec<T> = Vec::new();
        while items.len() > 0
            invariant
                all == items@ + rev@.reverse(),
            decreases items@.len(),
        {
            let ghost before = items@;
            match items.pop() {
                Some(x) => {
                    rev.push(x);
                    assert(all =~= items@ + rev@.reverse()) by {
                        assert(before =~= items@.push(x));
                        assert(rev@.reverse() =~= seq![x] + rev@.drop_last().reverse());
                    }
                },
                None => {},
            }
        }
        assert(all =~= rev@.reverse());
        IntoIter { rev }
    }
}

impl<T, const S: usize> Default for InlineVec<T, S> {
    fn default() -> (r: Self)
        ensures
            r.wf(),
            r@ == Seq::<T>::empty(),
            r.spec_inline(),
    {
        Self::new()
    }
}

/// The items of an [`InlineVec`], taken out front first.
pub struct IntoIter<T, const S: usize> {
    /// The remaining items, last first.
    rev: Vec<T>,
}

impl<T, const S: usize> View for IntoIter<T, S> {
    type V = Seq<T>;

    /// The remaining items, in order.
    closed spec fn view(&self) -> Seq<T> {
        self.rev@.reverse()
    }
}

impl<T, const S: usize> IntoIter<T, S> {
    /// The next item, or `None` when all were taken.
    pub fn next(&mut self) -> (r: Option<T>)
        ensures
            match r {
                Some(x) => old(self)@.len() > 0 && x == old(self)@[0] && final(self)@ == old(
                    self,
                )@.drop_first(),
                None => old(self)@.len() == 0 && final(self)@ == old(self)@,
            },
    {
        let r = self.rev.pop();
        proof {
            if r is Some {
                assert(old(self)@ =~= seq![r->0] + self@);
            }
        }
        r
    }

    /// The number of items left.
    pub fn len(&self) -> (r: usize)
        ensures
            r == self@.len(),
    {
        self.rev.len()
    }
}

} // verus!

verus! {

/// Popping right after a push gives the pushed item back and leaves the
/// items as they were.
pub proof fn law_pop_after_push<T>(items: Seq<T>, x: T)
    ensures
        items.push(x).len() > 0,
        items.push(x).last() == x,
        items.push(x).drop_last() == items,
{
    assert(items.push(x).drop_last() =~= items);
}

} // verus!
