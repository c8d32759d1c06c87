use growable_array::{alloc_array, array_layout, needs_allocation, realloc_array};

#[test]
fn layout_of_u32_array() {
    let l = array_layout::<u32>(5);
    assert_eq!(l.size, 20);
    assert_eq!(l.align, 4);
}

#[test]
fn layout_of_zero_sized_array() {
    let l = array_layout::<()>(1000);
    assert_eq!(l.size, 0);
    assert_eq!(l.align, 1);
}

#[test]
fn allocation_needed_only_for_bytes() {
    assert!(needs_allocation::<u64>(1));
    assert!(!needs_allocation::<u64>(0));
    assert!(!needs_allocation::<()>(7));
}

#[test]
fn alloc_array_zero_size_gives_none() {
    assert!(alloc_array::<u64>(0).is_none());
    assert!(alloc_array::<()>(4).is_none());
    let v = alloc_array::<u64>(4).unwrap();
    assert!(v.is_empty());
    assert!(v.capacity() >= 4);
}

#[test]
fn realloc_array_keeps_elements() {
    let mut v: Vec<u16> = vec![1, 2, 3];
    assert!(realloc_array(&mut v, 3, 10));
    assert_eq!(v, vec![1, 2, 3]);
    assert!(v.capacity() >= 10);
    let mut e: Vec<u16> = Vec::new();
    assert!(realloc_array(&mut e, 0, 6));
    assert!(e.capacity() >= 6);
    let mut z: Vec<()> = vec![(), ()];
    assert!(!realloc_array(&mut z, 2, 4));
    assert_eq!(z.len(), 2);
}
