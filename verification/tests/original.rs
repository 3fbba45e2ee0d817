use minivec::MiniVec;

#[test]
fn push_pop_roundtrip() {
    let mut v = MiniVec::new();
    v.push(1);
    v.push(2);
    v.push(3);

    assert_eq!(v.pop(), Some(3));
    assert_eq!(v.pop(), Some(2));
    assert_eq!(v.pop(), Some(1));
    assert_eq!(v.pop(), None);
}

#[test]
fn insert_remove() {
    let mut v = MiniVec::new();
    v.push(1);
    v.push(3);
    v.insert(1, 2);

    assert_eq!(&*v, &[1, 2, 3]);
    assert_eq!(v.remove(1), 2);
    assert_eq!(&*v, &[1, 3]);
}

#[test]
fn drain_consumes_elements() {
    let mut v = MiniVec::new();
    v.push(10);
    v.push(20);
    v.push(30);

    let mut drained: Vec<i32> = Vec::new();
    {
        let mut d = v.drain();
        while let Some(x) = d.next() {
            drained.push(x);
        }
    }
    assert_eq!(drained, vec![10, 20, 30]);
    let empty: &[i32] = &[];
    assert_eq!(&*v, empty);
}

#[test]
fn into_iter_works() {
    let mut v = MiniVec::new();
    v.push(1);
    v.push(2);
    v.push(3);

    let mut collected: Vec<i32> = Vec::new();
    let mut it = v.into_iter();
    while let Some(x) = it.next() {
        collected.push(x);
    }
    assert_eq!(collected, vec![1, 2, 3]);
}

#[test]
fn reserve_and_capacity() {
    let mut v: MiniVec<i32> = MiniVec::new();
    v.reserve(5);
    assert!(v.capacity() >= 5);
    v.reserve_exact(10);
    assert!(v.capacity() >= 10);
}

#[test]
fn clear_works() {
    let mut v = MiniVec::new();
    v.push(1);
    v.clear();
    assert!(v.is_empty());
}

#[test]
fn as_slice_and_mut() {
    let mut v = MiniVec::new();
    v.push(1);
    assert_eq!(v.as_slice(), &[1]);
    v.as_mut_slice()[0] = 2;
    assert_eq!(v.as_slice(), &[2]);
}
