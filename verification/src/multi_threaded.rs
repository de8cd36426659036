//! Borrow-counter backend for concurrent use: a shared acquire increments the
//! word unconditionally and compensates with a decrement when the increment
//! landed on an exclusively held slot, the lock-free pattern that needs one
//! increment and at most one roll-back; an exclusive acquire is a single
//! compare-and-set from the empty state. Both backends realize the state
//! machine of `state`, and their contracts are word for word the same.

use vstd::prelude::*;

use crate::state::{exclusive_acquire_ok, op_allowed, shared_acquire_ok, step, Op, UNIQUE_BIT};

verus! {

/// Aliasing state of one resource slot, updated by the roll-back pattern.
pub struct Borrow {
    value: usize,
}

impl View for Borrow {
    type V = usize;

    closed spec fn view(&self) -> usize {
        self.value
    }
}

impl Borrow {
    /// A fresh counter: no holder of either kind.
    pub fn new() -> (r: Self)
        ensures
            r@ == 0,
    {
        Self { value: 0 }
    }

    /// The raw state word.
    pub fn value(&self) -> (r: usize)
        ensures
            r == self@,
    {
        self.value
    }

    /// Register one more shared holder, unless the slot is exclusively held
    /// or the count is saturated. The increment is unconditional; a denied
    /// acquire is undone by the compensating decrement, so the state it
    /// leaves behind is unchanged.
    pub fn borrow(&mut self) -> (r: bool)
        requires
            old(self)@ != usize::MAX,
        ensures
            r == shared_acquire_ok(old(self)@),
            final(self)@ == step(old(self)@, Op::AcquireShared),
    {
        self.value = self.value + 1;
        if self.value >= UNIQUE_BIT {
            self.value = self.value - 1;
            false
        } else {
            true
        }
    }

    /// Take the slot exclusively: one compare-and-set from the empty state to
    /// the exclusive flag. A denied acquire leaves the state unchanged.
    pub fn borrow_mut(&mut self) -> (r: bool)
        ensures
            r == exclusive_acquire_ok(old(self)@),
            final(self)@ == step(old(self)@, Op::AcquireExclusive),
    {
        if self.value == 0 {
            self.value = UNIQUE_BIT;
            true
        } else {
            false
        }
    }

    /// Drop one shared holder. The caller guarantees a matching successful
    /// shared acquire, so the count is non-zero and the flag clear.
    pub fn release(&mut self)
        requires
            op_allowed(old(self)@, Op::ReleaseShared),
        ensures
            final(self)@ == step(old(self)@, Op::ReleaseShared),
    {
        self.value = self.value - 1;
    }

    /// Clear the exclusive flag. The caller guarantees a matching successful
    /// exclusive acquire, so the flag is set.
    pub fn release_mut(&mut self)
        requires
            op_allowed(old(self)@, Op::ReleaseExclusive),
        ensures
            final(self)@ == step(old(self)@, Op::ReleaseExclusive),
    {
        self.value = self.value - UNIQUE_BIT;
    }
}

} // verus!
