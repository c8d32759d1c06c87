use growable_array::GrowableArray;
use std::cmp::Ordering;

fn pushed(values: &[i32]) -> GrowableArray<i32> {
    let mut a = GrowableArray::new();
    for v in values {
        a.push(*v);
    }
    a
}

#[test]
fn push_two_fills_capacity_two() {
    let a = pushed(&[1, 2]);
    assert_eq!(a.len(), 2);
    assert_eq!(a.capacity(), 2);
    assert_eq!(a.as_slice(), &[1, 2]);
}

#[test]
fn push_three_doubles_capacity() {
    let a = pushed(&[1, 2, 3]);
    assert_eq!(a.capacity(), 4);
    assert_eq!(a.as_slice(), &[1, 2, 3]);
}

#[test]
fn empty_array_pops_nothing() {
    let mut a: GrowableArray<i32> = GrowableArray::new();
    assert_eq!(a.pop(), None);
    assert_eq!(a.capacity(), 0);
    assert!(a.is_empty());
    assert_eq!(a.len(), 0);
    assert_eq!(a.as_slice(), &[] as &[i32]);
}

#[test]
fn pop_keeps_capacity() {
    let mut a = pushed(&[1, 2, 3, 4, 5]);
    let cap = a.capacity();
    assert_eq!(cap, 8);
    assert_eq!(a.pop(), Some(5));
    assert_eq!(a.pop(), Some(4));
    assert_eq!(a.as_slice(), &[1, 2, 3]);
    assert_eq!(a.len(), 3);
    assert_eq!(a.capacity(), cap);
}

#[test]
fn from_vec_keeps_order() {
    let a = GrowableArray::from_vec(vec![10, 20, 30]);
    assert_eq!(a.as_slice(), &[10, 20, 30]);
    assert!(a.equals(&[10, 20, 30]));
    assert_eq!(a.capacity(), 3);
    assert_eq!(a.into_vec(), vec![10, 20, 30]);
}

#[test]
fn from_empty_vec() {
    let a: GrowableArray<i32> = GrowableArray::from_vec(Vec::new());
    assert!(a.is_empty());
    assert_eq!(a.capacity(), 0);
}

#[test]
fn pops_come_back_reversed() {
    let values = [7, -3, 12, 0, 9, 41];
    let mut a = pushed(&values);
    for v in values.iter().rev() {
        assert_eq!(a.pop(), Some(*v));
    }
    assert_eq!(a.pop(), None);
    assert_eq!(a.pop(), None);
}

#[test]
fn reads_recover_push_order() {
    let values = [5, 8, 13, 21, 34, 55, 89];
    let a = pushed(&values);
    assert_eq!(a.len(), values.len());
    for (i, v) in values.iter().enumerate() {
        assert_eq!(*a.index(i), *v);
        assert_eq!(a.get(i), Some(v));
    }
    assert_eq!(a.get(values.len()), None);
}

#[test]
fn capacity_sequence_on_pushes() {
    let mut a = GrowableArray::new();
    let mut caps = Vec::new();
    for v in 0..9 {
        a.push(v);
        caps.push(a.capacity());
    }
    assert_eq!(caps, vec![1, 2, 4, 4, 8, 8, 8, 8, 16]);
}

#[test]
fn reserve_grows_to_exact_need() {
    let mut a = pushed(&[1, 2, 3]);
    a.reserve(10);
    assert_eq!(a.capacity(), 13);
    a.reserve(2);
    assert_eq!(a.capacity(), 13);
    assert_eq!(a.as_slice(), &[1, 2, 3]);
}

#[test]
fn extend_appends_in_order() {
    let mut a = pushed(&[1, 2, 3]);
    a.extend(vec![4, 5]);
    assert_eq!(a.as_slice(), &[1, 2, 3, 4, 5]);
    assert_eq!(a.capacity(), 5);
    a.extend(Vec::new());
    assert_eq!(a.capacity(), 5);
}

#[test]
fn index_mut_writes_in_place() {
    let mut a = pushed(&[1, 2, 3]);
    *a.index_mut(1) = 20;
    assert_eq!(a.as_slice(), &[1, 20, 3]);
    assert_eq!(a.capacity(), 4);
}

#[test]
fn equal_sequences_compare_equal() {
    let a = GrowableArray::from_vec(vec![3, 1, 4]);
    let b = pushed(&[3, 1, 4]);
    assert!(a == b);
    assert_eq!(a.compare(b.as_slice()), Ordering::Equal);
}

#[test]
fn first_difference_decides_order() {
    let a = GrowableArray::from_vec(vec![3, 1, 4, 1]);
    assert_eq!(a.compare(&[3, 2, 0]), Ordering::Less);
    assert_eq!(a.compare(&[3, 0, 9, 9, 9]), Ordering::Greater);
    assert_eq!(a.compare(&[3, 1]), Ordering::Greater);
    assert_eq!(a.compare(&[3, 1, 4, 1, 5]), Ordering::Less);
    assert!(!a.equals(&[3, 1, 4]));
    assert!(a != GrowableArray::from_vec(vec![3, 1, 4, 2]));
}

#[test]
fn default_is_empty() {
    let a: GrowableArray<u8> = GrowableArray::default();
    assert!(a.is_empty());
    assert_eq!(a.capacity(), 0);
}

#[test]
fn zero_sized_elements_keep_bookkeeping() {
    let mut a: GrowableArray<()> = GrowableArray::new();
    a.push(());
    a.push(());
    a.push(());
    assert_eq!(a.len(), 3);
    assert_eq!(a.capacity(), 4);
    assert_eq!(a.pop(), Some(()));
    assert_eq!(a.len(), 2);
}

#[test]
fn elements_with_destructors_survive_growth() {
    let mut a = GrowableArray::new();
    for i in 0..20 {
        a.push(format!("item{}", i));
    }
    assert_eq!(a.capacity(), 32);
    assert_eq!(a.index(0), "item0");
    assert_eq!(a.index(19), "item19");
    assert_eq!(a.pop(), Some(String::from("item19")));
}

#[test]
fn arrays_order_lexicographically() {
    let a = GrowableArray::from_vec(vec![1, 2, 3]);
    let b = GrowableArray::from_vec(vec![1, 3]);
    let c = GrowableArray::from_vec(vec![1, 2]);
    assert!(a < b);
    assert!(c < a);
    assert_eq!(a.partial_cmp(&a), Some(Ordering::Equal));
}
