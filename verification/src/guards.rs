//! Guard values over one element of one column. A guard is constructed by
//! acquiring the column's borrow and is consumed by the release that hands
//! the borrow back, so each successful acquire is paired with exactly one
//! release. In between, the shared guard reads the element and the exclusive
//! guard reads and overwrites it. The counter lives in the owning collection,
//! so every operation names the collection it was constructed from.

use vstd::prelude::*;

use crate::state::{
    exclusive_acquire_ok, is_exclusive, op_allowed, shared_acquire_ok, shared_count, Op,
};
use crate::store::{col_state, col_values, has_col, store_step, store_write, Store};

verus! {

/// Failure of guard construction: the requested storable type has no column
/// in this collection. Recoverable; the element handle softens it to an
/// absent result.
#[derive(Clone, Copy, Debug)]
pub struct MissingComponent {
    /// The column key of the requested storable type.
    pub key: usize,
}

/// Shared borrow of one element: proof of a successful shared acquire on the
/// element's column, to be handed back through `release` exactly once.
#[derive(Debug)]
pub struct Ref {
    key: usize,
    row: usize,
}

impl Ref {
    /// The column key the guard was acquired for.
    pub closed spec fn key(&self) -> usize {
        self.key
    }

    /// The row of the guarded element.
    pub closed spec fn row(&self) -> usize {
        self.row
    }

    /// Acquire a shared borrow of the element of the column under `key` at
    /// `index`. Fails exactly when the collection has no such column, and
    /// then leaves the collection untouched. The caller guarantees a valid
    /// row and, by the structure of its accesses, that the acquire itself
    /// cannot be denied.
    pub fn new<T>(store: &mut Store<T>, key: usize, index: u32) -> (r: Result<Ref, MissingComponent>)
        requires
            has_col(old(store)@, key) ==> (index as usize) < col_values(old(store)@, key).len(),
            has_col(old(store)@, key) ==> col_state(old(store)@, key) != usize::MAX,
            has_col(old(store)@, key) ==> shared_acquire_ok(col_state(old(store)@, key)),
        ensures
            r is Ok <==> has_col(old(store)@, key),
            r is Ok ==> final(store)@ == store_step(old(store)@, key, Op::AcquireShared),
            r is Ok ==> r->Ok_0.key() == key && r->Ok_0.row() == index as usize,
            r is Err ==> final(store)@ == old(store)@ && r->Err_0.key == key,
    {
        match store.get_column(key) {
            Some(_) => {
                store.borrow_shared(key);
                Ok(Ref { key, row: index as usize })
            },
            None => Err(MissingComponent { key }),
        }
    }

    /// Read the guarded element.
    pub fn value<'a, T>(&self, store: &'a Store<T>) -> (r: &'a T)
        requires
            has_col(store@, self.key()),
            self.row() < col_values(store@, self.key()).len(),
            shared_count(col_state(store@, self.key())) > 0,
        ensures
            *r == col_values(store@, self.key())[self.row() as int],
    {
        store.read(self.key, self.row)
    }

    /// Hand the shared borrow back: the sole path that returns the counter
    /// to a state in which future acquires are granted. Consumes the guard,
    /// so each acquire is released at most once.
    pub fn release<T>(self, store: &mut Store<T>)
        requires
            has_col(old(store)@, self.key()),
            op_allowed(col_state(old(store)@, self.key()), Op::ReleaseShared),
        ensures
            final(store)@ == store_step(old(store)@, self.key(), Op::ReleaseShared),
    {
        store.release_shared(self.key);
    }
}

/// Exclusive borrow of one element: proof of a successful exclusive acquire
/// on the element's column, to be handed back through `release` exactly once.
#[derive(Debug)]
pub struct RefMut {
    key: usize,
    row: usize,
}

impl RefMut {
    /// The column key the guard was acquired for.
    pub closed spec fn key(&self) -> usize {
        self.key
    }

    /// The row of the guarded element.
    pub closed spec fn row(&self) -> usize {
        self.row
    }

    /// Acquire an exclusive borrow of the element of the column under `key`
    /// at `index`. Fails exactly when the collection has no such column, and
    /// then leaves the collection untouched. The caller guarantees a valid
    /// row and, by the structure of its accesses, that the acquire itself
    /// cannot be denied.
    pub fn new<T>(store: &mut Store<T>, key: usize, index: u32) -> (r: Result<
        RefMut,
        MissingComponent,
    >)
        requires
            has_col(old(store)@, key) ==> (index as usize) < col_values(old(store)@, key).len(),
            has_col(old(store)@, key) ==> exclusive_acquire_ok(col_state(old(store)@, key)),
        ensures
            r is Ok <==> has_col(old(store)@, key),
            r is Ok ==> final(store)@ == store_step(old(store)@, key, Op::AcquireExclusive),
            r is Ok ==> r->Ok_0.key() == key && r->Ok_0.row() == index as usize,
            r is Err ==> final(store)@ == old(store)@ && r->Err_0.key == key,
    {
        match store.get_column(key) {
            Some(_) => {
                store.borrow_exclusive(key);
                Ok(RefMut { key, row: index as usize })
            },
            None => Err(MissingComponent { key }),
        }
    }

    /// Read the guarded element.
    pub fn value<'a, T>(&self, store: &'a Store<T>) -> (r: &'a T)
        requires
            has_col(store@, self.key()),
            self.row() < col_values(store@, self.key()).len(),
            is_exclusive(col_state(store@, self.key())),
        ensures
            *r == col_values(store@, self.key())[self.row() as int],
    {
        store.read(self.key, self.row)
    }

    /// Overwrite the guarded element. Only the guarded element changes: the
    /// counters and every other element of the collection stay as they were.
    pub fn set<T>(&self, store: &mut Store<T>, value: T)
        requires
            has_col(old(store)@, self.key()),
            self.row() < col_values(old(store)@, self.key()).len(),
            is_exclusive(col_state(old(store)@, self.key())),
        ensures
            final(store)@ == store_write(old(store)@, self.key(), self.row() as int, value),
    {
        store.write(self.key, self.row, value);
    }

    /// Hand the exclusive borrow back: the sole path that returns the counter
    /// to a state in which future acquires are granted. Consumes the guard,
    /// so each acquire is released at most once.
    pub fn release<T>(self, store: &mut Store<T>)
        requires
            has_col(old(store)@, self.key()),
            op_allowed(col_state(old(store)@, self.key()), Op::ReleaseExclusive),
        ensures
            final(store)@ == store_step(old(store)@, self.key(), Op::ReleaseExclusive),
    {
        store.release_exclusive(self.key);
    }
}

} // verus!
