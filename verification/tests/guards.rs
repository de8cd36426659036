//! Guards and the element handle over a model collection.

use borrow_guard::entity::EntityRef;
use borrow_guard::guards::{Ref, RefMut};
use borrow_guard::state::UNIQUE_BIT;
use borrow_guard::store::Store;

fn sample_store() -> Store<u64> {
    // Column key 0: stored, three rows. Key 1: not stored. Key 2: stored.
    let mut store: Store<u64> = Store::new();
    store.push_column(vec![10, 20, 30]);
    store.push_absent();
    store.push_column(vec![7, 8, 9]);
    store
}

#[test]
fn shared_guard_reads_and_releases() {
    let mut store = sample_store();
    let guard = Ref::new(&mut store, 0, 1).unwrap();
    assert_eq!(*guard.value(&store), 20);
    let second = Ref::new(&mut store, 0, 2).unwrap();
    assert_eq!(*second.value(&store), 30);
    guard.release(&mut store);
    second.release(&mut store);
    // Every shared borrow released: an exclusive acquire is granted again.
    let exclusive = RefMut::new(&mut store, 0, 0).unwrap();
    exclusive.release(&mut store);
}

#[test]
fn missing_column_is_an_error_and_leaves_counters_alone() {
    let mut store = sample_store();
    let err = Ref::new(&mut store, 1, 0).unwrap_err();
    assert_eq!(err.key, 1);
    let err = RefMut::new(&mut store, 1, 0).unwrap_err();
    assert_eq!(err.key, 1);
    // The counters of the stored columns were not touched.
    let a = RefMut::new(&mut store, 0, 0).unwrap();
    let b = RefMut::new(&mut store, 2, 0).unwrap();
    a.release(&mut store);
    b.release(&mut store);
}

#[test]
fn write_through_exclusive_guard_visible_after_release() {
    let mut store = sample_store();
    let guard = RefMut::new(&mut store, 0, 1).unwrap();
    assert_eq!(*guard.value(&store), 20);
    guard.set(&mut store, 99);
    assert_eq!(*guard.value(&store), 99);
    guard.release(&mut store);
    let reader = Ref::new(&mut store, 0, 1).unwrap();
    assert_eq!(*reader.value(&store), 99);
    // Neighbouring rows and the other column are untouched.
    assert_eq!(*store.read(0, 0), 10);
    assert_eq!(*store.read(0, 2), 30);
    assert_eq!(*store.read(2, 1), 8);
    reader.release(&mut store);
}

#[test]
fn empty_handle_answers_absent_for_every_type() {
    let mut store = sample_store();
    let handle = EntityRef::empty();
    assert!(handle.get(&mut store, 0).is_none());
    assert!(handle.get(&mut store, 1).is_none());
    assert!(handle.get(&mut store, 2).is_none());
    assert!(handle.get_mut(&mut store, 0).is_none());
    assert!(handle.get_mut(&mut store, 2).is_none());
    // No counter was touched: exclusive acquires on both columns succeed.
    let a = RefMut::new(&mut store, 0, 0).unwrap();
    let b = RefMut::new(&mut store, 2, 0).unwrap();
    a.release(&mut store);
    b.release(&mut store);
}

#[test]
fn bound_handle_softens_missing_column_to_absent() {
    let mut store = sample_store();
    let handle = EntityRef::new(2);
    assert!(handle.get(&mut store, 1).is_none());
    assert!(handle.get_mut(&mut store, 1).is_none());
    // A key past every column is just as absent.
    assert!(handle.get(&mut store, 5).is_none());
    // Counters of the other types were not touched.
    let a = RefMut::new(&mut store, 0, 0).unwrap();
    let b = RefMut::new(&mut store, 2, 0).unwrap();
    a.release(&mut store);
    b.release(&mut store);
}

#[test]
fn bound_handle_manufactures_working_guards() {
    let mut store = sample_store();
    let handle = EntityRef::new(1);
    let shared = handle.get(&mut store, 0).unwrap();
    assert_eq!(*shared.value(&store), 20);
    shared.release(&mut store);
    let exclusive = handle.get_mut(&mut store, 2).unwrap();
    exclusive.set(&mut store, 88);
    exclusive.release(&mut store);
    let again = handle.get(&mut store, 2).unwrap();
    assert_eq!(*again.value(&store), 88);
    again.release(&mut store);
}

#[test]
fn handle_is_freely_copied() {
    let mut store = sample_store();
    let handle = EntityRef::new(0);
    let copy = handle;
    let first = handle.get(&mut store, 0).unwrap();
    let second = copy.get(&mut store, 0).unwrap();
    assert_eq!(*first.value(&store), 10);
    assert_eq!(*second.value(&store), 10);
    first.release(&mut store);
    second.release(&mut store);
}

#[test]
fn get_column_reports_presence_and_rows() {
    let store = sample_store();
    assert_eq!(store.get_column(0), Some(3));
    assert_eq!(store.get_column(1), None);
    assert_eq!(store.get_column(2), Some(3));
    assert_eq!(store.get_column(9), None);
}

#[test]
fn empty_store_has_no_columns() {
    let mut store: Store<u64> = Store::new();
    assert_eq!(store.get_column(0), None);
    let handle = EntityRef::new(0);
    assert!(handle.get(&mut store, 0).is_none());
    assert!(handle.get_mut(&mut store, 0).is_none());
}

#[test]
fn unique_bit_is_the_top_of_the_word() {
    assert_eq!(UNIQUE_BIT, usize::MAX / 2 + 1);
    assert_eq!(UNIQUE_BIT.wrapping_mul(2), 0);
}
