//! Tests of the element container.

use rkyv_impl::container::{call_archived, Foo};

#[test]
fn get_slice_returns_all_elements() {
    let foo = Foo { elements: vec![1u32, 2, 3] };
    assert_eq!(foo.get_slice(), &[1, 2, 3]);
}

#[test]
fn get_first_returns_the_first_element() {
    let foo = Foo { elements: vec![7u32, 8] };
    assert_eq!(foo.get_first(), Some(&7));
    let empty = Foo { elements: Vec::<u32>::new() };
    assert_eq!(empty.get_first(), None);
}

#[test]
fn element_eq_compares_one_element() {
    let foo = Foo { elements: vec![5u32, 6] };
    assert!(foo.element_eq(0, &5));
    assert!(!foo.element_eq(1, &5));
}

#[test]
fn clone_element_copies_one_element() {
    let foo = Foo { elements: vec![5u32, 6] };
    assert_eq!(foo.clone_element(1), 6);
}

#[test]
fn sum_adds_everything() {
    let foo = Foo { elements: vec![1u32, 2, 3, 4, 5, 6] };
    assert_eq!(foo.sum(), 21);
    let empty = Foo { elements: Vec::<u32>::new() };
    assert_eq!(empty.sum(), 0);
    let big = Foo { elements: vec![u32::MAX, u32::MAX] };
    assert_eq!(big.sum(), 2 * (u32::MAX as u64));
}

#[test]
fn the_accessors_serve_an_archived_caller() {
    let foo = Foo { elements: vec![1u32] };
    call_archived(&foo);
}
