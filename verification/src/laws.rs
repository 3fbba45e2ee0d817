//! Laws that relate several operations of `MiniVec`, stated over the
//! sequences and capacities that the operations' contracts speak of.
use vstd::prelude::*;
use crate::mini_vec::MiniVec;

verus! {

/// Popping right after pushing `x` gives back `x` and the contents from
/// before the push (`push` makes the view `s.push(x)`; `pop` returns the
/// last element and leaves `drop_last()`).
pub proof fn law_push_then_pop<T>(s: Seq<T>, x: T)
    ensures
        s.push(x).len() > 0,
        s.push(x).last() == x,
        s.push(x).drop_last() == s,
{
    assert(s.push(x).drop_last() =~= s);
}

/// Pushing back the element that `pop` returned restores the contents.
pub proof fn law_pop_then_push<T>(s: Seq<T>)
    requires
        s.len() > 0,
    ensures
        s.drop_last().push(s.last()) == s,
{
    assert(s.drop_last().push(s.last()) =~= s);
}

/// Removing at `index` right after inserting `x` there gives back `x` and
/// the contents from before the insertion.
pub proof fn law_insert_then_remove<T>(s: Seq<T>, index: int, x: T)
    requires
        0 <= index <= s.len(),
    ensures
        s.insert(index, x)[index] == x,
        s.insert(index, x).remove(index) == s,
{
    assert(s.insert(index, x).remove(index) =~= s);
}

/// Inserting back at `index` the element that `remove` returned restores
/// the contents.
pub proof fn law_remove_then_insert<T>(s: Seq<T>, index: int)
    requires
        0 <= index < s.len(),
    ensures
        s.remove(index).insert(index, s[index]) == s,
{
    assert(s.remove(index).insert(index, s[index]) =~= s);
}

/// `insert` puts `x` at `index`, keeps the elements before it and shifts
/// the later ones one place right.
pub proof fn law_insert_shifts_right<T>(s: Seq<T>, index: int, x: T)
    requires
        0 <= index <= s.len(),
    ensures
        s.insert(index, x).len() == s.len() + 1,
        forall|i: int| 0 <= i < index ==> s.insert(index, x)[i] == s[i],
        forall|i: int| index < i <= s.len() ==> s.insert(index, x)[i] == s[i - 1],
{
}

/// After a `pop` (which keeps the capacity and shortens the contents) there
/// is room for one element, and pushing it does not grow the capacity.
pub proof fn law_push_after_pop_keeps_capacity<T>(before: MiniVec<T>, after: MiniVec<T>)
    requires
        before.wf(),
        after.wf(),
        before@.len() > 0,
        after@ == before@.drop_last(),
        after.spec_capacity() == before.spec_capacity(),
    ensures
        after.can_push(),
        after.capacity_after_push() == before.spec_capacity(),
{
    before.lemma_capacity_bounds();
}

/// `push` and `insert` keep the capacity while there is room, and when the
/// vector is full they give an empty buffer room for one element and double
/// any other capacity.
pub proof fn law_push_capacity<T>(v: MiniVec<T>)
    ensures
        v@.len() < v.spec_capacity() ==> v.capacity_after_push() == v.spec_capacity(),
        v@.len() >= v.spec_capacity() && v.spec_capacity() == 0 ==> v.capacity_after_push()
            == 1,
        v@.len() >= v.spec_capacity() && v.spec_capacity() > 0 && 2 * v.spec_capacity()
            <= usize::MAX ==> v.capacity_after_push() == 2 * v.spec_capacity(),
{
}

/// The capacity of a well-formed vector (and every vector made by `new` and
/// the public operations is well formed) is at least its length; for
/// zero-sized elements it is `usize::MAX`, for any other it spans at most
/// `isize::MAX` bytes.
pub proof fn law_capacity_bounds<T>(v: MiniVec<T>)
    requires
        v.wf(),
    ensures
        v@.len() <= v.spec_capacity(),
        vstd::layout::size_of::<T>() == 0 ==> v.spec_capacity() == usize::MAX,
        vstd::layout::size_of::<T>() != 0 ==> v.spec_capacity() * vstd::layout::size_of::<T>()
            <= isize::MAX,
{
    v.lemma_capacity_bounds();
}

/// The iterators hand out a window `s[lo..hi]` of the sequence they started
/// with: `next` gives `s[lo]` and leaves `s[lo + 1..hi]`, `next_back` gives
/// `s[hi - 1]` and leaves `s[lo..hi - 1]`, and an empty window gives `None`.
/// So any interleaving of `next` and `next_back` hands out a prefix front
/// first and a suffix back first, never one element twice, and once the two
/// meet every further call returns `None`.
pub proof fn law_iteration_takes_from_both_ends<T>(s: Seq<T>, lo: int, hi: int)
    requires
        0 <= lo <= hi <= s.len(),
    ensures
        lo == hi ==> s.subrange(lo, hi).len() == 0,
        lo < hi ==> s.subrange(lo, hi)[0] == s[lo] && s.subrange(lo, hi).drop_first()
            == s.subrange(lo + 1, hi),
        lo < hi ==> s.subrange(lo, hi).last() == s[hi - 1] && s.subrange(lo, hi).drop_last()
            == s.subrange(lo, hi - 1),
        s.subrange(0, s.len() as int) == s,
{
    if lo < hi {
        assert(s.subrange(lo, hi).drop_first() =~= s.subrange(lo + 1, hi));
        assert(s.subrange(lo, hi).drop_last() =~= s.subrange(lo, hi - 1));
    }
    assert(s.subrange(0, s.len() as int) =~= s);
}

} // verus!
