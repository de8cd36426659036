//! Borrow-counter backend for single-threaded use: the word is read, checked
//! and written back directly, with no compensating step, since no other
//! holder can race the update.

use vstd::prelude::*;

use crate::state::{exclusive_acquire_ok, op_allowed, shared_acquire_ok, step, Op, UNIQUE_BIT};

verus! {

/// Aliasing state of one resource slot, updated in place.
pub struct Borrow {
    value: usize,
}

impl View for Borrow {
    type V = usize;

    closed spec fn view(&self) -> usize {
        self.value
    }
}

impl Borrow {
    /// A fresh counter: no holder of either kind.
    pub fn new() -> (r: Self)
        ensures
            r@ == 0,
    {
        Self { value: 0 }
    }

    /// The raw state word.
    pub fn value(&self) -> (r: usize)
        ensures
            r == self@,
    {
        self.value
    }

    /// Register one more shared holder, unless the slot is exclusively held
    /// or the count is saturated; a denied acquire leaves the state unchanged.
    pub fn borrow(&mut self) -> (r: bool)
        requires
            old(self)@ != usize::MAX,
        ensures
            r == shared_acquire_ok(old(self)@),
            final(self)@ == step(old(self)@, Op::AcquireShared),
    {
        let value: usize = self.value + 1;
        if value >= UNIQUE_BIT {
            false
        } else {
            self.value = value;
            true
        }
    }

    /// Take the slot exclusively, which succeeds only from the empty state;
    /// a denied acquire leaves the state unchanged.
    pub fn borrow_mut(&mut self) -> (r: bool)
        ensures
            r == exclusive_acquire_ok(old(self)@),
            final(self)@ == step(old(self)@, Op::AcquireExclusive),
    {
        if self.value == 0 {
            self.value = UNIQUE_BIT;
            true
        } else {
            false
        }
    }

    /// Drop one shared holder. The caller guarantees a matching successful
    /// shared acquire, so the count is non-zero and the flag clear.
    pub fn release(&mut self)
        requires
            op_allowed(old(self)@, Op::ReleaseShared),
        ensures
            final(self)@ == step(old(self)@, Op::ReleaseShared),
    {
        self.value = self.value - 1;
    }

    /// Clear the exclusive flag. The caller guarantees a matching successful
    /// exclusive acquire, so the flag is set.
    pub fn release_mut(&mut self)
        requires
            op_allowed(old(self)@, Op::ReleaseExclusive),
        ensures
            final(self)@ == step(old(self)@, Op::ReleaseExclusive),
    {
        self.value = self.value - UNIQUE_BIT;
    }
}

} // verus!
