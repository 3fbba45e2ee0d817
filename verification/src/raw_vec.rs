//! The buffer under a `MiniVec`: the initialized elements and the capacity
//! reserved for them.
use vstd::prelude::*;
use crate::capacity::next_capacity;

verus! {

/// The buffer: `data` holds the initialized prefix, `cap` the number of
/// elements there is room for. Zero-sized elements need no room, so their
/// buffer reports the largest capacity.
pub(crate) struct RawVec<T> {
    pub(crate) data: Vec<T>,
    pub(crate) cap: usize,
}

/// Calls `Vec::reserve_exact`, which asks the allocator for room for exactly
/// `additional` more elements than the vector holds and keeps its contents.
/// `Vec::reserve_exact` panics when the new capacity exceeds `isize::MAX`
/// bytes, so such requests are left out here; an allocation failure aborts.
/// Nothing is stated of the capacity the allocator gives, which the
/// specifications of `Vec` do not model.
#[verifier::external_body]
fn reserve_exact<T>(v: &mut Vec<T>, additional: usize)
    requires
        vstd::layout::size_of::<T>() != 0,
        (old(v)@.len() + additional) * vstd::layout::size_of::<T>() <= isize::MAX,
    ensures
        final(v)@ == old(v)@,
{
    v.reserve_exact(additional)
}

impl<T> RawVec<T> {
    /// The prefix fits in the buffer, a buffer of zero-sized elements has
    /// the largest capacity, and any other buffer spans at most
    /// `isize::MAX` bytes.
    pub(crate) open spec fn wf(&self) -> bool {
        &&& self.data@.len() <= self.cap
        &&& vstd::layout::size_of::<T>() == 0 ==> self.cap == usize::MAX
        &&& vstd::layout::size_of::<T>() != 0 ==> self.cap * vstd::layout::size_of::<T>()
            <= isize::MAX
    }

    pub(crate) fn new() -> (r: Self)
        ensures
            r.wf(),
            r.data@ == Seq::<T>::empty(),
            r.cap == (if vstd::layout::size_of::<T>() == 0 {
                usize::MAX as nat
            } else {
                0
            }),
    {
        let cap: usize = if core::mem::size_of::<T>() == 0 {
            usize::MAX
        } else {
            0
        };
        RawVec { data: Vec::new(), cap: cap }
    }

    /// Grows the buffer by one step (see `next_capacity`).
    pub(crate) fn grow(&mut self)
        requires
            old(self).wf(),
            vstd::layout::size_of::<T>() != 0,
            next_capacity(old(self).cap as nat) * vstd::layout::size_of::<T>() <= isize::MAX,
        ensures
            final(self).wf(),
            final(self).data@ == old(self).data@,
            final(self).cap == next_capacity(old(self).cap as nat),
    {
        let ghost size = vstd::layout::size_of::<T>();
        proof {
            let n = next_capacity(self.cap as nat);
            assert(n <= n * size) by (nonlinear_arith)
                requires
                    size >= 1,
            ;
        }
        let new_cap: usize = if self.cap == 0 {
            1
        } else {
            2 * self.cap
        };
        let additional: usize = new_cap - self.data.len();
        reserve_exact(&mut self.data, additional);
        self.cap = new_cap;
    }

    /// Grows the buffer to exactly `new_cap`, unless it already has that much
    /// room or holds zero-sized elements.
    pub(crate) fn grow_to(&mut self, new_cap: usize)
        requires
            old(self).wf(),
            vstd::layout::size_of::<T>() != 0 && new_cap > old(self).cap ==> new_cap
                * vstd::layout::size_of::<T>() <= isize::MAX,
        ensures
            final(self).wf(),
            final(self).data@ == old(self).data@,
            final(self).cap == (if vstd::layout::size_of::<T>() == 0 || new_cap <= old(self).cap {
                old(self).cap
            } else {
                new_cap
            }),
    {
        if core::mem::size_of::<T>() == 0 {
            return;
        }
        if new_cap <= self.cap {
            return;
        }
        let additional: usize = new_cap - self.data.len();
        reserve_exact(&mut self.data, additional);
        self.cap = new_cap;
    }
}

} // verus!
