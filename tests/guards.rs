use jni_arrays::auto_array::{AutoArray, TypeArray};
use jni_arrays::auto_byte_array::AutoByteArray;
use jni_arrays::auto_long_array::AutoLongArray;
use jni_arrays::errors::Error;
use jni_arrays::heap::ManagedHeap;
use jni_arrays::native::{ArrayElements, JObject};
use jni_arrays::release_mode::ReleaseMode;
use jni_arrays::sys::{jbyte, jlong};

fn long_heap(copies: bool, elems: Vec<jlong>) -> (ManagedHeap<jlong>, JObject) {
    let mut heap = ManagedHeap::new(copies);
    let obj = heap.new_array(elems);
    (heap, obj)
}

fn byte_heap(copies: bool, elems: Vec<jbyte>) -> (ManagedHeap<jbyte>, JObject) {
    let mut heap = ManagedHeap::new(copies);
    let obj = heap.new_array(elems);
    (heap, obj)
}

#[test]
fn long_copy_back_on_scope_exit() {
    let (mut heap, obj) = long_heap(true, vec![1, 2, 3, 4]);
    let guard = AutoLongArray::new(&mut heap, obj, ReleaseMode::CopyBack).unwrap();
    heap.write_element(guard.as_ptr(), 0, 99);
    assert_eq!(heap.array(obj), Some(vec![1, 2, 3, 4]));
    guard.close(&mut heap).unwrap();
    assert_eq!(heap.array(obj), Some(vec![99, 2, 3, 4]));
}

#[test]
fn long_discard_before_scope_exit() {
    let (mut heap, obj) = long_heap(true, vec![1, 2, 3, 4]);
    let mut guard = AutoLongArray::new(&mut heap, obj, ReleaseMode::CopyBack).unwrap();
    heap.write_element(guard.as_ptr(), 0, 99);
    guard.discard();
    guard.close(&mut heap).unwrap();
    assert_eq!(heap.array(obj), Some(vec![1, 2, 3, 4]));
}

#[test]
fn byte_modes_on_a_copy() {
    let modes = [
        (ReleaseMode::CopyBack, vec![7, 20, 30]),
        (ReleaseMode::CopyBackNoRelease, vec![7, 20, 30]),
        (ReleaseMode::Discard, vec![10, 20, 30]),
    ];
    for (mode, expected) in modes {
        let (mut heap, obj) = byte_heap(true, vec![10, 20, 30]);
        let guard = AutoByteArray::new(&mut heap, obj, mode).unwrap();
        assert!(guard.is_copy());
        heap.write_element(guard.as_ptr(), 0, 7);
        guard.close(&mut heap).unwrap();
        assert_eq!(heap.array(obj), Some(expected));
    }
}

#[test]
fn long_modes_on_a_copy() {
    let modes = [
        (ReleaseMode::CopyBack, vec![5, -1]),
        (ReleaseMode::CopyBackNoRelease, vec![5, -1]),
        (ReleaseMode::Discard, vec![5, 6]),
    ];
    for (mode, expected) in modes {
        let (mut heap, obj) = long_heap(true, vec![5, 6]);
        let guard = AutoLongArray::new(&mut heap, obj, mode).unwrap();
        heap.write_element(guard.as_ptr(), 1, -1);
        guard.close(&mut heap).unwrap();
        assert_eq!(heap.array(obj), Some(expected));
    }
}

#[test]
fn pinned_writes_are_seen_at_once() {
    let (mut heap, obj) = long_heap(false, vec![1, 2, 3, 4]);
    let mut guard = AutoLongArray::new(&mut heap, obj, ReleaseMode::CopyBack).unwrap();
    assert!(!guard.is_copy());
    heap.write_element(guard.as_ptr(), 3, 40);
    assert_eq!(heap.array(obj), Some(vec![1, 2, 3, 40]));
    guard.discard();
    guard.close(&mut heap).unwrap();
    assert_eq!(heap.array(obj), Some(vec![1, 2, 3, 40]));
}

#[test]
fn commit_keeps_the_guard_alive() {
    let (mut heap, obj) = long_heap(true, vec![1, 2, 3, 4]);
    let mut guard = AutoLongArray::new(&mut heap, obj, ReleaseMode::CopyBack).unwrap();
    heap.write_element(guard.as_ptr(), 0, 99);
    guard.commit(&mut heap).unwrap();
    assert_eq!(heap.array(obj), Some(vec![99, 2, 3, 4]));
    assert_eq!(heap.read_element(guard.as_ptr(), 0), 99);
    heap.write_element(guard.as_ptr(), 1, 98);
    assert_eq!(heap.array(obj), Some(vec![99, 2, 3, 4]));
    guard.close(&mut heap).unwrap();
    assert_eq!(heap.array(obj), Some(vec![99, 98, 3, 4]));
}

#[test]
fn byte_commit_then_discard() {
    let (mut heap, obj) = byte_heap(true, vec![1, 1]);
    let mut guard = AutoByteArray::new(&mut heap, obj, ReleaseMode::CopyBack).unwrap();
    heap.write_element(guard.as_ptr(), 0, 2);
    guard.commit(&mut heap).unwrap();
    heap.write_element(guard.as_ptr(), 1, 3);
    guard.discard();
    guard.close(&mut heap).unwrap();
    assert_eq!(heap.array(obj), Some(vec![2, 1]));
}

#[test]
fn is_copy_is_stable() {
    let (mut heap, obj) = byte_heap(true, vec![0; 3]);
    let mut guard = AutoByteArray::new(&mut heap, obj, ReleaseMode::CopyBack).unwrap();
    assert!(guard.is_copy());
    guard.commit(&mut heap).unwrap();
    assert!(guard.is_copy());
    guard.discard();
    assert!(guard.is_copy());
    guard.close(&mut heap).unwrap();

    let (mut heap, obj) = byte_heap(false, vec![0; 3]);
    let mut guard = AutoByteArray::new(&mut heap, obj, ReleaseMode::CopyBack).unwrap();
    assert!(!guard.is_copy());
    guard.commit(&mut heap).unwrap();
    guard.discard();
    assert!(!guard.is_copy());
    guard.close(&mut heap).unwrap();
}

#[test]
fn size_is_the_element_count() {
    let (mut heap, obj) = byte_heap(true, vec![1, 2, 3, 4, 5]);
    let mut guard = AutoByteArray::new(&mut heap, obj, ReleaseMode::CopyBack).unwrap();
    assert_eq!(guard.size(&heap), Ok(5));
    heap.write_element(guard.as_ptr(), 4, 0);
    guard.commit(&mut heap).unwrap();
    assert_eq!(guard.size(&heap), Ok(5));
    guard.close(&mut heap).unwrap();

    let (mut heap, obj) = long_heap(false, vec![]);
    let guard = AutoLongArray::new(&mut heap, obj, ReleaseMode::Discard).unwrap();
    assert_eq!(guard.size(&heap), Ok(0));
    guard.close(&mut heap).unwrap();
}

#[test]
fn null_handle_gives_null_ptr() {
    let (mut heap, _obj) = long_heap(true, vec![1, 2, 3, 4]);
    let r = AutoLongArray::new(&mut heap, JObject::null(), ReleaseMode::CopyBack);
    assert!(matches!(r, Err(Error::NullPtr(_))));
    let r = AutoByteArray::new(&mut byte_heap(true, vec![1]).0, JObject::from_raw(9), ReleaseMode::CopyBack);
    assert!(matches!(r, Err(Error::NullPtr(_))));
    assert_eq!(heap.get_array_length(JObject::null()), Err(Error::InvalidArray));
    assert_eq!(heap.get_array_length(JObject::from_raw(1)), Ok(4));
}

#[test]
fn release_mode_codes() {
    assert_eq!(ReleaseMode::CopyBack.code(), 0);
    assert_eq!(ReleaseMode::CopyBackNoRelease.code(), 1);
    assert_eq!(ReleaseMode::Discard.code(), 2);
}

#[test]
fn generic_guard_construction() {
    let obj = JObject::from_raw(3);
    let r: Result<AutoArray<jlong>, Error> = AutoArray::new(obj, 0, 1, ReleaseMode::CopyBack);
    assert!(matches!(r, Err(Error::NullPtr(_))));
    let mut a: AutoArray<jlong> = AutoArray::new(obj, 16, 1, ReleaseMode::CopyBack).unwrap();
    assert_eq!(a.as_ptr(), 16);
    assert_eq!(a.obj(), obj);
    assert!(a.is_copy());
    assert_eq!(a.mode(), ReleaseMode::CopyBack);
    a.discard();
    assert_eq!(a.mode(), ReleaseMode::Discard);
    a.discard();
    assert_eq!(a.mode(), ReleaseMode::Discard);
    assert!(a.is_copy());
    let b: AutoArray<jbyte> = AutoArray::new(obj, 8, 0xff, ReleaseMode::Discard).unwrap();
    assert!(!b.is_copy());
    let c: AutoArray<jbyte> = AutoArray::new(obj, 8, 0, ReleaseMode::Discard).unwrap();
    assert!(!c.is_copy());
}

#[test]
fn explicit_release_under_a_code() {
    let (mut heap, obj) = long_heap(true, vec![1, 2]);
    let mut guard = AutoLongArray::new(&mut heap, obj, ReleaseMode::Discard).unwrap();
    heap.write_element(guard.as_ptr(), 0, 9);
    guard.release(&mut heap, 0).unwrap();
    assert_eq!(heap.array(obj), Some(vec![9, 2]));
}
