use minivec::prelude::LessVec;
use minivec::{Drain, IntoIter, MiniVec};

fn collect_drain(mut d: Drain<'_, u8>) -> Vec<u8> {
    let mut out = Vec::new();
    while let Some(x) = d.next() {
        out.push(x);
    }
    out
}

fn collect_into_iter(mut it: IntoIter<u8>) -> Vec<u8> {
    let mut out = Vec::new();
    while let Some(x) = it.next() {
        out.push(x);
    }
    out
}

#[test]
fn new_is_empty_with_no_capacity() {
    let v: MiniVec<u64> = MiniVec::new();
    assert_eq!(v.len(), 0);
    assert!(v.is_empty());
    assert_eq!(v.capacity(), 0);
    assert_eq!(v.as_slice(), &[] as &[u64]);
}

#[test]
fn zero_sized_elements_have_largest_capacity() {
    let mut v: MiniVec<()> = MiniVec::new();
    assert_eq!(v.capacity(), usize::MAX);
    v.push(());
    v.push(());
    assert_eq!(v.len(), 2);
    assert_eq!(v.capacity(), usize::MAX);
    v.reserve(100);
    v.reserve_exact(100);
    assert_eq!(v.capacity(), usize::MAX);
    assert_eq!(v.pop(), Some(()));
    assert_eq!(v.len(), 1);
}

#[test]
fn push_grows_by_doubling() {
    let mut v: MiniVec<u32> = MiniVec::new();
    let mut caps = Vec::new();
    for i in 0..9u32 {
        v.push(i);
        caps.push(v.capacity());
    }
    assert_eq!(caps, vec![1, 2, 4, 4, 8, 8, 8, 8, 16]);
    assert_eq!(v.as_slice(), &[0, 1, 2, 3, 4, 5, 6, 7, 8]);
}

#[test]
fn reserve_doubles_until_enough() {
    let mut v: MiniVec<i32> = MiniVec::new();
    v.reserve(5);
    assert_eq!(v.capacity(), 8);
    v.push(1);
    v.push(2);
    v.push(3);
    v.reserve(6);
    assert_eq!(v.capacity(), 16);
    v.reserve(2);
    assert_eq!(v.capacity(), 16);
    assert_eq!(v.as_slice(), &[1, 2, 3]);
}

#[test]
fn reserve_zero_on_empty_keeps_capacity() {
    let mut v: MiniVec<i32> = MiniVec::new();
    v.reserve(0);
    assert_eq!(v.capacity(), 0);
}

#[test]
fn reserve_exact_gives_exact_capacity() {
    let mut v: MiniVec<i32> = MiniVec::new();
    v.reserve_exact(3);
    assert_eq!(v.capacity(), 3);
    v.push(7);
    v.reserve_exact(10);
    assert_eq!(v.capacity(), 11);
    v.reserve_exact(4);
    assert_eq!(v.capacity(), 11);
    assert_eq!(v.as_slice(), &[7]);
}

#[test]
fn push_after_full_exact_reserve_doubles() {
    let mut v: MiniVec<i32> = MiniVec::new();
    v.reserve_exact(3);
    v.push(1);
    v.push(2);
    v.push(3);
    assert_eq!(v.capacity(), 3);
    v.push(4);
    assert_eq!(v.capacity(), 6);
}

#[test]
fn pop_on_empty_returns_none() {
    let mut v: MiniVec<i32> = MiniVec::new();
    assert_eq!(v.pop(), None);
    assert_eq!(v.len(), 0);
}

#[test]
fn pop_keeps_capacity_and_push_after_pop_does_not_grow() {
    let mut v: MiniVec<i32> = MiniVec::new();
    v.push(1);
    v.push(2);
    assert_eq!(v.capacity(), 2);
    assert_eq!(v.pop(), Some(2));
    assert_eq!(v.capacity(), 2);
    v.push(5);
    assert_eq!(v.capacity(), 2);
    assert_eq!(v.as_slice(), &[1, 5]);
}

#[test]
fn push_then_pop_restores_contents() {
    let mut v: MiniVec<i32> = MiniVec::new();
    v.push(1);
    v.push(2);
    v.push(9);
    assert_eq!(v.pop(), Some(9));
    assert_eq!(v.as_slice(), &[1, 2]);
}

#[test]
fn pop_then_push_restores_contents() {
    let mut v: MiniVec<i32> = MiniVec::new();
    v.push(1);
    v.push(2);
    let x = v.pop().unwrap();
    v.push(x);
    assert_eq!(v.as_slice(), &[1, 2]);
}

#[test]
fn insert_at_front_and_back() {
    let mut v: MiniVec<i32> = MiniVec::new();
    v.insert(0, 2);
    assert_eq!(v.capacity(), 1);
    v.insert(0, 1);
    v.insert(2, 3);
    assert_eq!(v.as_slice(), &[1, 2, 3]);
    assert_eq!(v.capacity(), 4);
}

#[test]
fn insert_then_remove_restores_contents() {
    let mut v: MiniVec<i32> = MiniVec::new();
    v.push(4);
    v.push(5);
    v.push(6);
    v.insert(1, 42);
    assert_eq!(v.as_slice(), &[4, 42, 5, 6]);
    assert_eq!(v.remove(1), 42);
    assert_eq!(v.as_slice(), &[4, 5, 6]);
}

#[test]
fn remove_then_insert_restores_contents() {
    let mut v: MiniVec<i32> = MiniVec::new();
    v.push(4);
    v.push(5);
    v.push(6);
    let x = v.remove(0);
    assert_eq!(x, 4);
    assert_eq!(v.as_slice(), &[5, 6]);
    v.insert(0, x);
    assert_eq!(v.as_slice(), &[4, 5, 6]);
}

#[test]
fn remove_keeps_capacity() {
    let mut v: MiniVec<i32> = MiniVec::new();
    v.push(1);
    v.push(2);
    v.push(3);
    assert_eq!(v.remove(2), 3);
    assert_eq!(v.capacity(), 4);
}

#[test]
fn clear_keeps_capacity() {
    let mut v: MiniVec<i32> = MiniVec::new();
    v.push(1);
    v.push(2);
    v.push(3);
    v.clear();
    assert_eq!(v.len(), 0);
    assert_eq!(v.capacity(), 4);
}

#[test]
fn drain_keeps_capacity_and_hands_out_from_both_ends() {
    let mut v: MiniVec<u8> = MiniVec::new();
    for i in 1..=5u8 {
        v.push(i);
    }
    {
        let mut d = v.drain();
        assert_eq!(d.size_hint(), (5, Some(5)));
        assert_eq!(d.next(), Some(1));
        assert_eq!(d.next_back(), Some(5));
        assert_eq!(d.size_hint(), (3, Some(3)));
        assert_eq!(d.next_back(), Some(4));
        assert_eq!(d.next(), Some(2));
        assert_eq!(d.next(), Some(3));
        assert_eq!(d.next(), None);
        assert_eq!(d.next_back(), None);
        assert_eq!(d.size_hint(), (0, Some(0)));
    }
    assert!(v.is_empty());
    assert_eq!(v.capacity(), 8);
    v.push(9);
    assert_eq!(v.capacity(), 8);
}

#[test]
fn drain_of_empty_yields_nothing() {
    let mut v: MiniVec<u8> = MiniVec::new();
    assert_eq!(collect_drain(v.drain()), Vec::<u8>::new());
}

#[test]
fn drain_yields_in_order() {
    let mut v: MiniVec<u8> = MiniVec::new();
    v.push(3);
    v.push(1);
    v.push(2);
    assert_eq!(collect_drain(v.drain()), vec![3, 1, 2]);
}

#[test]
fn into_iter_from_both_ends() {
    let mut v: MiniVec<u8> = MiniVec::new();
    v.push(1);
    v.push(2);
    v.push(3);
    let mut it = v.into_iter();
    assert_eq!(it.size_hint(), (3, Some(3)));
    assert_eq!(it.next_back(), Some(3));
    assert_eq!(it.next(), Some(1));
    assert_eq!(it.size_hint(), (1, Some(1)));
    assert_eq!(collect_into_iter(it), vec![2]);
}

#[test]
fn as_mut_slice_writes_through() {
    let mut v: MiniVec<u8> = MiniVec::new();
    v.push(1);
    v.push(2);
    v.as_mut_slice()[1] = 7;
    v.as_mut_slice()[0] = 6;
    assert_eq!(&*v, &[6, 7]);
    assert_eq!(v.capacity(), 2);
}

#[test]
fn strings_move_through_the_vector() {
    let mut v: MiniVec<String> = MiniVec::new();
    v.push(String::from("a"));
    v.push(String::from("b"));
    v.insert(1, String::from("c"));
    assert_eq!(v.remove(0), "a");
    assert_eq!(v.pop(), Some(String::from("b")));
    assert_eq!(v.len(), 1);
    let mut it = v.into_iter();
    assert_eq!(it.next(), Some(String::from("c")));
    assert_eq!(it.next(), None);
}

#[test]
fn deref_mut_writes_through() {
    let mut v: MiniVec<u8> = MiniVec::new();
    v.push(1);
    v.push(2);
    v[0] = 5;
    (&mut *v)[1] = 6;
    assert_eq!(v.len(), 2);
    assert_eq!(v.as_slice(), &[5, 6]);
    assert_eq!(v[1], 6);
}

#[test]
fn prelude_names_the_vector_lessvec() {
    let mut v: LessVec<i32> = LessVec::new();
    v.push(1);
    v.push(2);
    assert_eq!(v.as_slice(), &[1, 2]);
}

#[test]
fn capacity_spans_at_most_isize_max_bytes() {
    let mut v: MiniVec<u64> = MiniVec::new();
    v.reserve(100);
    assert_eq!(v.capacity(), 128);
    assert!(v.capacity() * std::mem::size_of::<u64>() <= isize::MAX as usize);
    assert!(v.len() <= v.capacity());
}

#[test]
fn lessvec_at_crate_root() {
    let mut v: minivec::LessVec<u8> = minivec::LessVec::new();
    v.reserve_exact(2);
    assert_eq!(v.capacity(), 2);
    v.push(4);
    v.push(5);
    v.push(6);
    assert_eq!(v.capacity(), 4);
    assert_eq!(&*v, &[4, 5, 6]);
}
