use grsql::allocator::IdAllocator;

#[test]
fn empty_store_starts_at_zero() {
    let a = IdAllocator::new(None);
    assert_eq!(a.base_id(), 0);
    assert_eq!(a.next(), 1);
}

#[test]
fn base_is_the_largest_stored_id() {
    let a = IdAllocator::new(Some(41));
    assert_eq!(a.base_id(), 41);
    assert_eq!(a.next(), 42);
    assert!(!a.exhausted());
}

#[test]
fn next_does_not_advance() {
    let a = IdAllocator::new(Some(7));
    assert_eq!(a.next(), 8);
    assert_eq!(a.next(), 8);
    assert_eq!(a.base_id(), 7);
}

#[test]
fn commit_advances_by_one() {
    let mut a = IdAllocator::new(Some(7));
    a.commit();
    assert_eq!(a.base_id(), 8);
    assert_eq!(a.next(), 9);
}

#[test]
fn sequential_ids_rise_without_gaps() {
    let mut a = IdAllocator::new(Some(10));
    let mut ids = Vec::new();
    for _ in 0..5 {
        ids.push(a.next());
        a.commit();
    }
    assert_eq!(ids, vec![11, 12, 13, 14, 15]);
    assert_eq!(a.base_id(), 15);
}

#[test]
fn exhausted_at_the_largest_integer() {
    let a = IdAllocator::new(Some(i32::MAX));
    assert!(a.exhausted());
    let b = IdAllocator::new(Some(i32::MAX - 1));
    assert!(!b.exhausted());
    assert_eq!(b.next(), i32::MAX);
}
