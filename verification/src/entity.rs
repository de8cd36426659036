//! A lazily-resolved handle to one row of a collection. The handle holds no
//! borrow itself — it only manufactures guards on demand — so it may be
//! copied freely. An empty handle stands for an entity with no columns at
//! all and answers every lookup with an absent result, without touching any
//! counter.

use vstd::prelude::*;

use crate::guards::{Ref, RefMut};
use crate::state::{exclusive_acquire_ok, shared_acquire_ok, Op};
use crate::store::{col_state, col_values, has_col, store_step, Store};

verus! {

/// Handle to one row, either bound to the owning collection or empty.
#[derive(Clone, Copy)]
pub struct EntityRef {
    bound: bool,
    index: u32,
}

impl EntityRef {
    /// The handle is bound to a collection row rather than empty.
    pub closed spec fn is_bound(&self) -> bool {
        self.bound
    }

    /// The row the handle resolves to.
    pub closed spec fn index(&self) -> u32 {
        self.index
    }

    /// A handle for an entity with no columns: every lookup is absent.
    pub fn empty() -> (r: Self)
        ensures
            !r.is_bound(),
    {
        Self { bound: false, index: 0 }
    }

    /// A handle bound to the row `index` of the owning collection.
    pub fn new(index: u32) -> (r: Self)
        ensures
            r.is_bound(),
            r.index() == index,
    {
        Self { bound: true, index }
    }

    /// Borrow the element of the column under `key`, if the handle is bound
    /// and the collection stores that type; a missing column is softened to
    /// an absent result. In every absent case the collection — each of its
    /// counters included — is left untouched. The caller guarantees, by the
    /// structure of its accesses, that an acquire it does reach cannot be
    /// denied.
    pub fn get<T>(&self, store: &mut Store<T>, key: usize) -> (r: Option<Ref>)
        requires
            self.is_bound() && has_col(old(store)@, key) ==> (self.index() as usize) < col_values(
                old(store)@,
                key,
            ).len(),
            self.is_bound() && has_col(old(store)@, key) ==> col_state(old(store)@, key)
                != usize::MAX,
            self.is_bound() && has_col(old(store)@, key) ==> shared_acquire_ok(
                col_state(old(store)@, key),
            ),
        ensures
            r is Some <==> self.is_bound() && has_col(old(store)@, key),
            r is Some ==> final(store)@ == store_step(old(store)@, key, Op::AcquireShared),
            r is Some ==> r->0.key() == key && r->0.row() == self.index() as usize,
            r is None ==> final(store)@ == old(store)@,
    {
        if !self.bound {
            return None;
        }
        match Ref::new(store, key, self.index) {
            Ok(guard) => Some(guard),
            Err(_) => None,
        }
    }

    /// Exclusively borrow the element of the column under `key`, if the
    /// handle is bound and the collection stores that type; a missing column
    /// is softened to an absent result. In every absent case the collection —
    /// each of its counters included — is left untouched. The caller
    /// guarantees, by the structure of its accesses, that an acquire it does
    /// reach cannot be denied.
    pub fn get_mut<T>(&self, store: &mut Store<T>, key: usize) -> (r: Option<RefMut>)
        requires
            self.is_bound() && has_col(old(store)@, key) ==> (self.index() as usize) < col_values(
                old(store)@,
                key,
            ).len(),
            self.is_bound() && has_col(old(store)@, key) ==> exclusive_acquire_ok(
                col_state(old(store)@, key),
            ),
        ensures
            r is Some <==> self.is_bound() && has_col(old(store)@, key),
            r is Some ==> final(store)@ == store_step(old(store)@, key, Op::AcquireExclusive),
            r is Some ==> r->0.key() == key && r->0.row() == self.index() as usize,
            r is None ==> final(store)@ == old(store)@,
    {
        if !self.bound {
            return None;
        }
        match RefMut::new(store, key, self.index) {
            Ok(guard) => Some(guard),
            Err(_) => None,
        }
    }
}

} // verus!
