//! Behaviour of `ArrayVec` on concrete values.

use tinyvec::{ArrayVec, Bound};

fn filled(items: &[i32]) -> ArrayVec<i32, 8> {
    let mut av: ArrayVec<i32, 8> = ArrayVec::new();
    for &x in items {
        av.push(x);
    }
    av
}

#[test]
fn new_is_empty_with_fixed_capacity() {
    let av: ArrayVec<i32, 8> = ArrayVec::new();
    assert_eq!(av.len(), 0);
    assert!(av.is_empty());
    assert_eq!(av.capacity(), 8);
    assert_eq!(av.as_slice(), &[] as &[i32]);
}

#[test]
fn push_appends_in_order() {
    let av = filled(&[3, 1, 4, 1, 5, 9, 2, 6]);
    assert_eq!(av.len(), 8);
    assert!(!av.is_empty());
    assert_eq!(av.as_slice(), &[3, 1, 4, 1, 5, 9, 2, 6]);
    assert_eq!(av.to_vec(), vec![3, 1, 4, 1, 5, 9, 2, 6]);
}

#[test]
fn pop_takes_the_last_element() {
    let mut av = filled(&[1, 2]);
    assert_eq!(av.pop(), Some(2));
    assert_eq!(av.pop(), Some(1));
    assert_eq!(av.pop(), None);
    assert_eq!(av.len(), 0);
}

#[test]
fn pop_undoes_push() {
    let mut av = filled(&[10, 20]);
    av.push(30);
    assert_eq!(av.pop(), Some(30));
    assert_eq!(av.to_vec(), vec![10, 20]);
}

#[test]
fn remove_shifts_later_elements_down() {
    let mut av = filled(&[1, 2, 3, 4]);
    assert_eq!(av.remove(1), 2);
    assert_eq!(av.to_vec(), vec![1, 3, 4]);
    assert_eq!(av.remove(2), 4);
    assert_eq!(av.to_vec(), vec![1, 3]);
    assert_eq!(av.remove(0), 1);
    assert_eq!(av.to_vec(), vec![3]);
}

#[test]
fn swap_remove_moves_last_into_the_gap() {
    let mut av = filled(&[1, 2, 3, 4]);
    assert_eq!(av.swap_remove(0), 1);
    assert_eq!(av.to_vec(), vec![4, 2, 3]);
}

#[test]
fn swap_remove_at_last_position_is_pop() {
    let mut a = filled(&[5, 6, 7]);
    let mut b = filled(&[5, 6, 7]);
    assert_eq!(a.swap_remove(2), 7);
    assert_eq!(b.pop(), Some(7));
    assert_eq!(a.to_vec(), b.to_vec());
    let mut single = filled(&[99]);
    assert_eq!(single.swap_remove(0), 99);
    assert!(single.is_empty());
}

#[test]
fn drain_half_open_range() {
    let mut av = filled(&[1, 2, 3, 4, 5]);
    let drained = av.drain(Bound::Included(1), Bound::Excluded(3));
    assert_eq!(drained, vec![2, 3]);
    assert_eq!(av.to_vec(), vec![1, 4, 5]);
}

#[test]
fn drain_inclusive_range_matches_half_open() {
    let mut a = filled(&[1, 2, 3, 4, 5]);
    let mut b = filled(&[1, 2, 3, 4, 5]);
    let da = a.drain(Bound::Included(1), Bound::Included(2));
    let db = b.drain(Bound::Included(1), Bound::Excluded(3));
    assert_eq!(da, db);
    assert_eq!(a.to_vec(), b.to_vec());
}

#[test]
fn drain_unbounded_and_excluded_start() {
    let mut av = filled(&[10, 20, 30]);
    assert_eq!(av.drain(Bound::Unbounded, Bound::Unbounded), vec![10, 20, 30]);
    assert!(av.is_empty());

    let mut av = filled(&[10, 20, 30, 40]);
    assert_eq!(av.drain(Bound::Excluded(0), Bound::Unbounded), vec![20, 30, 40]);
    assert_eq!(av.to_vec(), vec![10]);

    let mut av = filled(&[10, 20, 30]);
    assert_eq!(av.drain(Bound::Included(2), Bound::Excluded(2)), Vec::<i32>::new());
    assert_eq!(av.to_vec(), vec![10, 20, 30]);
}

#[test]
fn drain_loses_nothing() {
    let items = [8, 6, 7, 5, 3, 0, 9];
    let mut av = filled(&items);
    let drained = av.drain(Bound::Included(2), Bound::Excluded(5));
    let rest = av.to_vec();
    let mut joined = rest[..2].to_vec();
    joined.extend_from_slice(&drained);
    joined.extend_from_slice(&rest[2..]);
    assert_eq!(joined, items.to_vec());
}

#[test]
fn debug_text_is_that_of_the_slice() {
    let av = filled(&[1, -2, 3]);
    assert_eq!(av.debug_string(), "[1, -2, 3]");
    assert_eq!(av.debug_string(), format!("{:?}", av.as_slice()));
    assert_eq!(av.debug_string_alternate(), "[\n    1,\n    -2,\n    3,\n]");
    let empty: ArrayVec<i32, 8> = ArrayVec::new();
    assert_eq!(empty.debug_string(), "[]");
    assert_eq!(empty.debug_string_alternate(), "[]");
}
