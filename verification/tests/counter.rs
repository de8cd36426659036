//! The borrow-counter state machine, exercised identically on both backends.

use borrow_guard::multi_threaded;
use borrow_guard::single_threaded;
use borrow_guard::state::UNIQUE_BIT;

#[test]
fn scenario_single_threaded_counter() {
    let mut b = single_threaded::Borrow::new();
    assert_eq!(b.value(), 0);
    assert!(b.borrow());
    assert_eq!(b.value(), 1);
    assert!(!b.borrow_mut());
    assert_eq!(b.value(), 1);
    b.release();
    assert_eq!(b.value(), 0);
    assert!(b.borrow_mut());
    assert_eq!(b.value(), UNIQUE_BIT);
    assert!(!b.borrow());
    assert_eq!(b.value(), UNIQUE_BIT);
    b.release_mut();
    assert_eq!(b.value(), 0);
}

#[test]
fn scenario_multi_threaded_counter() {
    let mut b = multi_threaded::Borrow::new();
    assert_eq!(b.value(), 0);
    assert!(b.borrow());
    assert_eq!(b.value(), 1);
    assert!(!b.borrow_mut());
    assert_eq!(b.value(), 1);
    b.release();
    assert_eq!(b.value(), 0);
    assert!(b.borrow_mut());
    assert_eq!(b.value(), UNIQUE_BIT);
    assert!(!b.borrow());
    assert_eq!(b.value(), UNIQUE_BIT);
    b.release_mut();
    assert_eq!(b.value(), 0);
}

#[test]
fn exclusive_denied_until_last_shared_release_single_threaded() {
    let mut b = single_threaded::Borrow::new();
    assert!(b.borrow());
    assert!(b.borrow());
    assert!(!b.borrow_mut());
    b.release();
    assert!(!b.borrow_mut());
    b.release();
    assert!(b.borrow_mut());
    b.release_mut();
}

#[test]
fn exclusive_denied_until_last_shared_release_multi_threaded() {
    let mut b = multi_threaded::Borrow::new();
    assert!(b.borrow());
    assert!(b.borrow());
    assert!(!b.borrow_mut());
    b.release();
    assert!(!b.borrow_mut());
    b.release();
    assert!(b.borrow_mut());
    b.release_mut();
}

#[test]
fn shared_denied_while_exclusive_held_single_threaded() {
    let mut b = single_threaded::Borrow::new();
    assert!(b.borrow_mut());
    assert!(!b.borrow());
    assert!(!b.borrow());
    b.release_mut();
    assert!(b.borrow());
    b.release();
}

#[test]
fn shared_denied_while_exclusive_held_multi_threaded() {
    let mut b = multi_threaded::Borrow::new();
    assert!(b.borrow_mut());
    assert!(!b.borrow());
    assert!(!b.borrow());
    b.release_mut();
    assert!(b.borrow());
    b.release();
}

#[test]
fn many_shared_holders_coexist_single_threaded() {
    let mut b = single_threaded::Borrow::new();
    let n: usize = 100;
    for _ in 0..n {
        assert!(b.borrow());
    }
    assert_eq!(b.value(), n);
    assert!(!b.borrow_mut());
    for _ in 0..n {
        b.release();
    }
    assert_eq!(b.value(), 0);
}

#[test]
fn many_shared_holders_coexist_multi_threaded() {
    let mut b = multi_threaded::Borrow::new();
    let n: usize = 100;
    for _ in 0..n {
        assert!(b.borrow());
    }
    assert_eq!(b.value(), n);
    assert!(!b.borrow_mut());
    for _ in 0..n {
        b.release();
    }
    assert_eq!(b.value(), 0);
}

#[test]
fn flag_and_count_never_both_set() {
    let mut b = multi_threaded::Borrow::new();
    let mut seen: Vec<usize> = Vec::new();
    seen.push(b.value());
    assert!(b.borrow());
    seen.push(b.value());
    assert!(!b.borrow_mut());
    seen.push(b.value());
    b.release();
    seen.push(b.value());
    assert!(b.borrow_mut());
    seen.push(b.value());
    assert!(!b.borrow());
    seen.push(b.value());
    b.release_mut();
    seen.push(b.value());
    for v in seen {
        let exclusive = v >= UNIQUE_BIT;
        let count = if exclusive { v - UNIQUE_BIT } else { v };
        assert!(!(exclusive && count > 0));
    }
}
