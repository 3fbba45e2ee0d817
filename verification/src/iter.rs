//! Iterators that hand the elements of a `MiniVec` out by value, from the
//! front or from the back.
use vstd::prelude::*;
use std::collections::VecDeque;
use core::marker::PhantomData;
use crate::mini_vec::MiniVec;

verus! {

/// The elements still to be handed out, front first.
pub(crate) struct RawValIter<T> {
    items: VecDeque<T>,
}

impl<T> RawValIter<T> {
    pub(crate) closed spec fn remaining(&self) -> Seq<T> {
        self.items@
    }

    /// Takes over `elems`, to be handed out in their order.
    pub(crate) fn new(elems: Vec<T>) -> (it: Self)
        ensures
            it.remaining() == elems@,
    {
        let mut elems = elems;
        let mut items: VecDeque<T> = VecDeque::new();
        let ghost all = elems@;
        while elems.len() > 0
            invariant
                elems@ + items@ == all,
            decreases elems@.len(),
        {
            match elems.pop() {
                Some(x) => {
                    items.push_front(x);
                    assert(elems@ + items@ =~= all);
                },
                None => {},
            }
        }
        assert(items@ =~= all);
        RawValIter { items }
    }

    pub(crate) fn next(&mut self) -> (r: Option<T>)
        ensures
            old(self).remaining().len() == 0 ==> r == None::<T> && final(self).remaining()
                == old(self).remaining(),
            old(self).remaining().len() > 0 ==> r == Some(old(self).remaining()[0])
                && final(self).remaining() == old(self).remaining().drop_first(),
    {
        let r = self.items.pop_front();
        proof {
            if old(self).remaining().len() > 0 {
                assert(self.items@ =~= old(self).remaining().drop_first());
            }
        }
        r
    }

    pub(crate) fn next_back(&mut self) -> (r: Option<T>)
        ensures
            old(self).remaining().len() == 0 ==> r == None::<T> && final(self).remaining()
                == old(self).remaining(),
            old(self).remaining().len() > 0 ==> r == Some(old(self).remaining().last())
                && final(self).remaining() == old(self).remaining().drop_last(),
    {
        self.items.pop_back()
    }

    pub(crate) fn size_hint(&self) -> (r: (usize, Option<usize>))
        ensures
            r.0 == self.remaining().len(),
            r.1 == Some(r.0),
    {
        let n: usize = self.items.len();
        (n, Some(n))
    }
}

/// An iterator that hands out the elements of a consumed `MiniVec` by value.
pub struct IntoIter<T> {
    iter: RawValIter<T>,
}

impl<T> View for IntoIter<T> {
    type V = Seq<T>;

    /// The elements not yet handed out, front first.
    closed spec fn view(&self) -> Seq<T> {
        self.iter.remaining()
    }
}

impl<T> IntoIter<T> {
    pub(crate) fn from_iter(iter: RawValIter<T>) -> (r: Self)
        ensures
            r@ == iter.remaining(),
    {
        IntoIter { iter }
    }

    /// Hands out the front element, or `None` when none is left.
    pub fn next(&mut self) -> (r: Option<T>)
        ensures
            old(self)@.len() == 0 ==> r == None::<T> && final(self)@ == old(self)@,
            old(self)@.len() > 0 ==> r == Some(old(self)@[0]) && final(self)@ == old(
                self,
            )@.drop_first(),
    {
        self.iter.next()
    }

    /// Hands out the back element, or `None` when none is left.
    pub fn next_back(&mut self) -> (r: Option<T>)
        ensures
            old(self)@.len() == 0 ==> r == None::<T> && final(self)@ == old(self)@,
            old(self)@.len() > 0 ==> r == Some(old(self)@.last()) && final(self)@ == old(
                self,
            )@.drop_last(),
    {
        self.iter.next_back()
    }

    /// The exact number of elements left, as lower and upper bound.
    pub fn size_hint(&self) -> (r: (usize, Option<usize>))
        ensures
            r.0 == self@.len(),
            r.1 == Some(r.0),
    {
        self.iter.size_hint()
    }
}

/// An iterator produced by `MiniVec::drain`: it hands out the drained
/// elements by value.
pub struct Drain<'a, T: 'a> {
    vec: PhantomData<&'a mut MiniVec<T>>,
    iter: RawValIter<T>,
}

impl<'a, T> View for Drain<'a, T> {
    type V = Seq<T>;

    /// The elements not yet handed out, front first.
    closed spec fn view(&self) -> Seq<T> {
        self.iter.remaining()
    }
}

impl<'a, T> Drain<'a, T> {
    pub(crate) fn from_iter(iter: RawValIter<T>) -> (r: Self)
        ensures
            r@ == iter.remaining(),
    {
        Drain { vec: PhantomData, iter }
    }

    /// Hands out the front element, or `None` when none is left.
    pub fn next(&mut self) -> (r: Option<T>)
        ensures
            old(self)@.len() == 0 ==> r == None::<T> && final(self)@ == old(self)@,
            old(self)@.len() > 0 ==> r == Some(old(self)@[0]) && final(self)@ == old(
                self,
            )@.drop_first(),
    {
        self.iter.next()
    }

    /// Hands out the back element, or `None` when none is left.
    pub fn next_back(&mut self) -> (r: Option<T>)
        ensures
            old(self)@.len() == 0 ==> r == None::<T> && final(self)@ == old(self)@,
            old(self)@.len() > 0 ==> r == Some(old(self)@.last()) && final(self)@ == old(
                self,
            )@.drop_last(),
    {
        self.iter.next_back()
    }

    /// The exact number of elements left, as lower and upper bound.
    pub fn size_hint(&self) -> (r: (usize, Option<usize>))
        ensures
            r.0 == self@.len(),
            r.1 == Some(r.0),
    {
        self.iter.size_hint()
    }
}

} // verus!
