//! `MiniVec<T>`: the vector, its view as a sequence and its capacity.
use vstd::prelude::*;
use crate::capacity::{exact_capacity, grown_capacity, lemma_grown_capacity_covers, next_capacity};
use crate::iter::{Drain, IntoIter, RawValIter};
use crate::raw_vec::RawVec;

verus! {

/// A minimal growable contiguous vector.
///
/// Its contents are the sequence `v@`; its capacity `v.spec_capacity()` is
/// the number of elements it has room for without growing.
pub struct MiniVec<T> {
    buf: RawVec<T>,
}

impl<T> View for MiniVec<T> {
    type V = Seq<T>;

    closed spec fn view(&self) -> Seq<T> {
        self.buf.data@
    }
}

impl<T> MiniVec<T> {
    /// The number of elements the vector has room for.
    pub closed spec fn spec_capacity(&self) -> usize {
        self.buf.cap
    }

    /// The vector is well formed: its elements fit in its capacity, a vector
    /// of zero-sized elements has capacity `usize::MAX`, and any other spans
    /// at most `isize::MAX` bytes of capacity.
    pub closed spec fn wf(&self) -> bool {
        self.buf.wf()
    }

    /// One growth step keeps the buffer within `isize::MAX` bytes (and the
    /// elements are not zero-sized, whose capacity cannot grow).
    pub open spec fn can_grow(&self) -> bool {
        &&& vstd::layout::size_of::<T>() != 0
        &&& next_capacity(self.spec_capacity() as nat) * vstd::layout::size_of::<T>()
            <= isize::MAX
    }

    /// There is room for one more element, now or after one growth step.
    pub open spec fn can_push(&self) -> bool {
        self@.len() < self.spec_capacity() || self.can_grow()
    }

    /// The capacity after adding one element.
    pub open spec fn capacity_after_push(&self) -> usize {
        if self@.len() < self.spec_capacity() {
            self.spec_capacity()
        } else {
            next_capacity(self.spec_capacity() as nat) as usize
        }
    }

    /// `reserve(additional)` can be satisfied: the required length fits in a
    /// `usize` and the capacity grown to it spans at most `isize::MAX` bytes.
    pub open spec fn can_reserve(&self, additional: usize) -> bool {
        let required = self@.len() + additional;
        &&& required <= usize::MAX
        &&& self.spec_capacity() >= required || grown_capacity(
            self.spec_capacity() as nat,
            required as nat,
        ) * vstd::layout::size_of::<T>() <= isize::MAX
    }

    /// `reserve_exact(additional)` can be satisfied: the required length fits
    /// in a `usize` and a buffer of that length spans at most `isize::MAX`
    /// bytes.
    pub open spec fn can_reserve_exact(&self, additional: usize) -> bool {
        let required = self@.len() + additional;
        &&& required <= usize::MAX
        &&& self.spec_capacity() >= required || required * vstd::layout::size_of::<T>()
            <= isize::MAX
    }

    pub(crate) proof fn lemma_capacity_bounds(&self)
        requires
            self.wf(),
        ensures
            self@.len() <= self.spec_capacity(),
            vstd::layout::size_of::<T>() == 0 ==> self.spec_capacity() == usize::MAX,
            vstd::layout::size_of::<T>() != 0 ==> self.spec_capacity()
                * vstd::layout::size_of::<T>() <= isize::MAX,
    {
    }

    fn cap(&self) -> (r: usize)
        ensures
            r == self.spec_capacity(),
    {
        self.buf.cap
    }

    /// Creates a new, empty `MiniVec`. It has capacity 0, or `usize::MAX`
    /// for zero-sized elements.
    pub fn new() -> (v: Self)
        ensures
            v.wf(),
            v@ == Seq::<T>::empty(),
            v.spec_capacity() == (if vstd::layout::size_of::<T>() == 0 {
                usize::MAX
            } else {
                0
            }),
    {
        MiniVec { buf: RawVec::new() }
    }

    /// Returns the number of elements in the vector.
    pub fn len(&self) -> (r: usize)
        ensures
            r == self@.len(),
    {
        self.buf.data.len()
    }

    /// Returns `true` if the vector contains no elements.
    pub fn is_empty(&self) -> (r: bool)
        ensures
            r <==> self@.len() == 0,
    {
        self.buf.data.len() == 0
    }

    /// Returns the number of elements the vector can hold without growing.
    pub fn capacity(&self) -> (r: usize)
        ensures
            r == self.spec_capacity(),
            self.wf() ==> r >= self@.len(),
    {
        self.cap()
    }

    /// Removes all elements, keeping the capacity.
    pub fn clear(&mut self)
        requires
            old(self).wf(),
        ensures
            final(self).wf(),
            final(self)@ == Seq::<T>::empty(),
            final(self).spec_capacity() == old(self).spec_capacity(),
    {
        let ghost cap = self.spec_capacity();
        loop
            invariant
                self.wf(),
                self.spec_capacity() == cap,
            ensures
                self@.len() == 0,
            decreases self@.len(),
        {
            match self.pop() {
                Some(_) => {},
                None => {
                    break;
                },
            }
        }
    }

    /// Returns a slice holding all elements of the vector.
    pub fn as_slice(&self) -> (s: &[T])
        ensures
            s@ == self@,
    {
        self.buf.data.as_slice()
    }

    /// Returns a mutable slice holding all elements of the vector; what is
    /// written through it becomes the vector's contents.
    ///
    /// Writing through the slice cannot change its length, so the vector
    /// stays well formed; the contract states this for a final slice of the
    /// same length, since no specification of `&mut [T]` fixes that length.
    pub fn as_mut_slice(&mut self) -> (s: &mut [T])
        requires
            old(self).wf(),
        ensures
            s@ == old(self)@,
            final(self)@ == final(s)@,
            final(self).spec_capacity() == old(self).spec_capacity(),
            final(s)@.len() == s@.len() ==> final(self).wf(),
    {
        self.buf.data.as_mut_slice()
    }

    /// Ensures room for at least `additional` more elements, growing the
    /// capacity by doubling until it is enough.
    pub fn reserve(&mut self, additional: usize)
        requires
            old(self).wf(),
            old(self).can_reserve(additional),
        ensures
            final(self).wf(),
            final(self)@ == old(self)@,
            final(self).spec_capacity() == grown_capacity(
                old(self).spec_capacity() as nat,
                (old(self)@.len() + additional) as nat,
            ),
    {
        let required: usize = self.buf.data.len() + additional;
        if self.cap() >= required {
            return;
        }
        let ghost target = grown_capacity(self.buf.cap as nat, required as nat);
        while self.cap() < required
            invariant
                self.wf(),
                self@ == old(self)@,
                required == old(self)@.len() + additional,
                grown_capacity(self.buf.cap as nat, required as nat) == target,
                target * vstd::layout::size_of::<T>() <= isize::MAX,
            decreases usize::MAX - self.buf.cap,
        {
            let ghost size = vstd::layout::size_of::<T>();
            proof {
                let next = next_capacity(self.buf.cap as nat);
                lemma_grown_capacity_covers(next, required as nat);
                assert(next * size <= target * size) by (nonlinear_arith)
                    requires
                        next <= target,
                ;
            }
            self.buf.grow();
        }
    }

    /// Ensures room for at least `additional` more elements, growing the
    /// capacity to exactly the required length when it is not enough.
    pub fn reserve_exact(&mut self, additional: usize)
        requires
            old(self).wf(),
            old(self).can_reserve_exact(additional),
        ensures
            final(self).wf(),
            final(self)@ == old(self)@,
            final(self).spec_capacity() == exact_capacity(
                old(self).spec_capacity() as nat,
                (old(self)@.len() + additional) as nat,
            ),
    {
        let required: usize = self.buf.data.len() + additional;
        if self.cap() >= required {
            return;
        }
        self.buf.grow_to(required);
    }

    /// Appends an element to the back, growing by one step when full.
    pub fn push(&mut self, elem: T)
        requires
            old(self).wf(),
            old(self).can_push(),
        ensures
            final(self).wf(),
            final(self)@ == old(self)@.push(elem),
            final(self).spec_capacity() == old(self).capacity_after_push(),
    {
        if self.buf.data.len() == self.cap() {
            self.buf.grow();
        }
        self.buf.data.push(elem);
    }

    /// Removes the last element and returns it, or `None` if empty.
    pub fn pop(&mut self) -> (r: Option<T>)
        requires
            old(self).wf(),
        ensures
            final(self).wf(),
            final(self).spec_capacity() == old(self).spec_capacity(),
            old(self)@.len() == 0 ==> r == None::<T> && final(self)@ == old(self)@,
            old(self)@.len() > 0 ==> r == Some(old(self)@.last()) && final(self)@ == old(
                self,
            )@.drop_last(),
    {
        self.buf.data.pop()
    }

    /// Inserts an element at `index`, shifting the later elements right.
    pub fn insert(&mut self, index: usize, elem: T)
        requires
            old(self).wf(),
            index <= old(self)@.len(),
            old(self).can_push(),
        ensures
            final(self).wf(),
            final(self)@ == old(self)@.insert(index as int, elem),
            final(self).spec_capacity() == old(self).capacity_after_push(),
    {
        if self.buf.data.len() == self.cap() {
            self.buf.grow();
        }
        self.buf.data.insert(index, elem);
    }

    /// Removes and returns the element at `index`, shifting the later
    /// elements left.
    pub fn remove(&mut self, index: usize) -> (r: T)
        requires
            old(self).wf(),
            index < old(self)@.len(),
        ensures
            final(self).wf(),
            r == old(self)@[index as int],
            final(self)@ == old(self)@.remove(index as int),
            final(self).spec_capacity() == old(self).spec_capacity(),
    {
        self.buf.data.remove(index)
    }

    /// Removes all elements and returns a double-ended iterator that hands
    /// them out by value; the vector keeps its capacity, and the buffer
    /// left behind still has room for that many elements.
    pub fn drain(&'_ mut self) -> (d: Drain<'_, T>)
        requires
            old(self).wf(),
        ensures
            d@ == old(self)@,
            final(self).wf(),
            final(self)@ == Seq::<T>::empty(),
            final(self).spec_capacity() == old(self).spec_capacity(),
    {
        let items: Vec<T> = self.buf.data.split_off(0);
        Drain::from_iter(RawValIter::new(items))
    }

    /// Consumes the vector into a double-ended iterator over its elements.
    pub fn into_iter(self) -> (it: IntoIter<T>)
        ensures
            it@ == self@,
    {
        IntoIter::from_iter(RawValIter::new(self.buf.data))
    }
}

/// `*v` is the slice of the vector's elements.
impl<T> core::ops::Deref for MiniVec<T> {
    type Target = [T];

    fn deref(&self) -> (s: &[T])
        ensures
            s@ == self@,
    {
        self.buf.data.as_slice()
    }
}

/// `&mut *v` is the mutable slice of the vector's elements, as
/// `as_mut_slice` gives it.
impl<T> core::ops::DerefMut for MiniVec<T> {
    fn deref_mut(&mut self) -> (s: &mut [T])
        ensures
            s@ == old(self)@,
            final(self)@ == final(s)@,
            final(self).spec_capacity() == old(self).spec_capacity(),
            old(self).wf() && final(s)@.len() == s@.len() ==> final(self).wf(),
    {
        self.buf.data.as_mut_slice()
    }
}

} // verus!
