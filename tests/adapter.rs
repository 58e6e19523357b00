use russimp::adapter::{get_raw_vec, get_raw, get_vec, get_vec_of_vecs, raw_at, raw_len};
use russimp::raw::RawArray;

#[test]
fn zero_count_with_null_pointer_is_empty() {
    let a: RawArray<u32> = RawArray::null(0);
    assert!(get_raw_vec(&a).is_empty());
}

#[test]
fn zero_count_with_live_pointer_is_empty() {
    let a = RawArray { data: Some(vec![1u32, 2, 3]), count: 0 };
    assert!(get_raw_vec(&a).is_empty());
    let converted: Vec<u64> = get_vec(&a, |x: &u32| *x as u64 * 2);
    assert!(converted.is_empty());
}

#[test]
fn null_pointer_with_count_is_empty() {
    let a: RawArray<u32> = RawArray::null(7);
    assert!(get_raw_vec(&a).is_empty());
    assert_eq!(raw_len(&a), 0);
}

#[test]
fn only_the_counted_elements_are_copied() {
    let a = RawArray { data: Some(vec![4u32, 5, 6, 7]), count: 2 };
    assert_eq!(get_raw_vec(&a), vec![4, 5]);
    assert_eq!(raw_len(&a), 2);
    assert_eq!(*raw_at(&a, 1), 5);
}

#[test]
fn converter_is_applied_in_order() {
    let a = RawArray::from_vec(vec![1u32, 2, 3]);
    let r: Vec<u32> = get_vec(&a, |x: &u32| *x * 10);
    assert_eq!(r, vec![10, 20, 30]);
}

#[test]
fn nullable_pointer_converts_when_present() {
    let some: Option<u32> = Some(4);
    let none: Option<u32> = None;
    assert_eq!(get_raw(&some, |x: &u32| *x + 1), Some(5));
    assert_eq!(get_raw(&none, |x: &u32| *x + 1), None);
}

#[test]
fn channels_keep_their_positions() {
    let slots: Vec<Option<Vec<u32>>> = vec![Some(vec![1, 2, 3]), None, Some(vec![7, 8, 9, 10]), None];
    let r = get_vec_of_vecs(&slots, 3);
    assert_eq!(r.len(), 4);
    assert_eq!(r[0], Some(vec![1, 2, 3]));
    assert_eq!(r[1], None);
    assert_eq!(r[2], Some(vec![7, 8, 9]));
    assert_eq!(r[3], None);
}

#[test]
fn channels_with_no_vertices_are_empty() {
    let slots: Vec<Option<Vec<u32>>> = vec![Some(vec![1, 2]), None];
    let r = get_vec_of_vecs(&slots, 0);
    assert_eq!(r[0], Some(vec![]));
    assert_eq!(r[1], None);
}
