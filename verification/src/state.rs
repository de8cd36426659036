//! The borrow-state machine shared by both counter backends.
//!
//! A counter's state is one unsigned machine word. Values strictly below
//! `UNIQUE_BIT` are a count of live shared holders; `UNIQUE_BIT` itself marks
//! the slot as exclusively held. The spec functions here say which operations
//! are permitted in a given state, what each operation yields, and the
//! invariant every reachable state satisfies: the exclusive flag and a
//! non-zero shared count are never set at the same time.

use vstd::prelude::*;

verus! {

/// The word value whose top bit stands for "exclusively held"; every smaller
/// value is a pure count of shared holders.
pub const UNIQUE_BIT: usize = usize::MAX / 2 + 1;

/// The slot is exclusively held.
pub open spec fn is_exclusive(v: usize) -> bool {
    v >= UNIQUE_BIT
}

/// How many shared holders the state records.
pub open spec fn shared_count(v: usize) -> int {
    if is_exclusive(v) {
        v - UNIQUE_BIT
    } else {
        v as int
    }
}

/// The state-machine invariant: an exclusively held slot records no shared
/// holders.
pub open spec fn counter_inv(v: usize) -> bool {
    is_exclusive(v) ==> shared_count(v) == 0
}

/// A shared acquire succeeds exactly when the slot is not exclusively held
/// and one more holder still fits below the exclusive flag.
pub open spec fn shared_acquire_ok(v: usize) -> bool {
    v + 1 < UNIQUE_BIT
}

/// An exclusive acquire succeeds exactly when no holder of either kind exists.
pub open spec fn exclusive_acquire_ok(v: usize) -> bool {
    v == 0
}

/// One operation of the borrow-counter interface.
pub enum Op {
    AcquireShared,
    AcquireExclusive,
    ReleaseShared,
    ReleaseExclusive,
}

/// When an operation may be issued at all. Acquires are always permitted
/// (they report denial through their result), except that a shared acquire
/// on a saturated word would have no room even to probe; releases must be
/// balanced against a matching successful acquire.
pub open spec fn op_allowed(v: usize, op: Op) -> bool {
    match op {
        Op::AcquireShared => v != usize::MAX,
        Op::AcquireExclusive => true,
        Op::ReleaseShared => v != 0 && !is_exclusive(v),
        Op::ReleaseExclusive => is_exclusive(v),
    }
}

/// The state after one permitted operation. A denied acquire leaves the
/// state unchanged.
pub open spec fn step(v: usize, op: Op) -> usize {
    match op {
        Op::AcquireShared => if shared_acquire_ok(v) {
            (v + 1) as usize
        } else {
            v
        },
        Op::AcquireExclusive => if exclusive_acquire_ok(v) {
            UNIQUE_BIT
        } else {
            v
        },
        Op::ReleaseShared => (v - 1) as usize,
        Op::ReleaseExclusive => (v - UNIQUE_BIT) as usize,
    }
}

/// The state after a whole sequence of operations.
pub open spec fn run(v: usize, ops: Seq<Op>) -> usize
    decreases ops.len(),
{
    if ops.len() == 0 {
        v
    } else {
        run(step(v, ops[0]), ops.drop_first())
    }
}

/// Every operation of the sequence is permitted in the state it meets.
pub open spec fn ops_allowed(v: usize, ops: Seq<Op>) -> bool
    decreases ops.len(),
{
    ops.len() == 0 || (op_allowed(v, ops[0]) && ops_allowed(step(v, ops[0]), ops.drop_first()))
}

/// One permitted operation preserves the state-machine invariant.
pub proof fn lemma_step_preserves_inv(v: usize, op: Op)
    requires
        counter_inv(v),
        op_allowed(v, op),
    ensures
        counter_inv(step(v, op)),
{
}

/// A permitted sequence of operations preserves the state-machine invariant.
pub proof fn lemma_run_preserves_inv(v: usize, ops: Seq<Op>)
    requires
        counter_inv(v),
        ops_allowed(v, ops),
    ensures
        counter_inv(run(v, ops)),
    decreases ops.len(),
{
    if ops.len() > 0 {
        lemma_step_preserves_inv(v, ops[0]);
        lemma_run_preserves_inv(step(v, ops[0]), ops.drop_first());
    }
}

/// Every prefix of a permitted sequence is itself permitted.
pub proof fn lemma_ops_allowed_take(v: usize, ops: Seq<Op>, i: int)
    requires
        ops_allowed(v, ops),
        0 <= i <= ops.len(),
    ensures
        ops_allowed(v, ops.take(i)),
    decreases i,
{
    if i > 0 {
        assert(ops.take(i)[0] == ops[0]);
        assert(ops.take(i).drop_first() =~= ops.drop_first().take(i - 1));
        lemma_ops_allowed_take(step(v, ops[0]), ops.drop_first(), i - 1);
    }
}

/// The exclusive flag and a non-zero shared count are never simultaneously
/// true in any state a counter reaches from its initial state, whatever
/// permitted operations are issued and in whatever order.
pub proof fn lemma_no_exclusive_with_shared(ops: Seq<Op>)
    requires
        ops_allowed(0, ops),
    ensures
        forall|i: int| 0 <= i <= ops.len() ==> counter_inv(run(0, #[trigger] ops.take(i))),
{
    assert forall|i: int| 0 <= i <= ops.len() implies counter_inv(run(0, #[trigger] ops.take(i))) by {
        lemma_ops_allowed_take(0, ops, i);
        lemma_run_preserves_inv(0, ops.take(i));
    }
}

/// While any shared holder is live an exclusive acquire is denied, and as
/// soon as the last one is released it succeeds.
pub proof fn lemma_exclusive_vs_shared(v: usize)
    ensures
        shared_count(v) > 0 ==> !exclusive_acquire_ok(v),
        !is_exclusive(v) && shared_count(v) == 1 ==> exclusive_acquire_ok(step(v, Op::ReleaseShared)),
        !is_exclusive(v) && shared_count(v) == 0 ==> exclusive_acquire_ok(v),
{
}

/// While the slot is exclusively held a shared acquire is denied, and any
/// number of shared holders below the counter's width may coexist otherwise.
pub proof fn lemma_shared_vs_exclusive(v: usize)
    ensures
        is_exclusive(v) ==> !shared_acquire_ok(v),
        !is_exclusive(v) && shared_count(v) + 1 < UNIQUE_BIT ==> shared_acquire_ok(v),
{
}

/// The same operation, `n` times over.
pub open spec fn repeat_op(op: Op, n: nat) -> Seq<Op>
    decreases n,
{
    if n == 0 {
        Seq::empty()
    } else {
        seq![op] + repeat_op(op, (n - 1) as nat)
    }
}

/// Running a concatenation runs the two halves in order.
pub proof fn lemma_run_append(v: usize, s1: Seq<Op>, s2: Seq<Op>)
    ensures
        run(v, s1 + s2) == run(run(v, s1), s2),
        ops_allowed(v, s1 + s2) <==> (ops_allowed(v, s1) && ops_allowed(run(v, s1), s2)),
    decreases s1.len(),
{
    if s1.len() == 0 {
        assert(s1 + s2 =~= s2);
    } else {
        assert((s1 + s2)[0] == s1[0]);
        assert((s1 + s2).drop_first() =~= s1.drop_first() + s2);
        lemma_run_append(step(v, s1[0]), s1.drop_first(), s2);
    }
}

/// From a state with room for them, `n` shared acquires are all permitted,
/// all succeed, and leave `n` more shared holders recorded.
pub proof fn lemma_shared_acquires(v: usize, n: nat)
    requires
        v + n < UNIQUE_BIT,
    ensures
        ops_allowed(v, repeat_op(Op::AcquireShared, n)),
        run(v, repeat_op(Op::AcquireShared, n)) == v + n,
    decreases n,
{
    if n > 0 {
        let ops = repeat_op(Op::AcquireShared, n);
        assert(ops[0] == Op::AcquireShared);
        assert(ops.drop_first() =~= repeat_op(Op::AcquireShared, (n - 1) as nat));
        lemma_shared_acquires((v + 1) as usize, (n - 1) as nat);
    }
}

/// With at least `n` shared holders recorded and the flag clear, `n` shared
/// releases are all permitted and drop the count by exactly `n`.
pub proof fn lemma_shared_releases(v: usize, n: nat)
    requires
        n <= v < UNIQUE_BIT,
    ensures
        ops_allowed(v, repeat_op(Op::ReleaseShared, n)),
        run(v, repeat_op(Op::ReleaseShared, n)) == v - n,
    decreases n,
{
    if n > 0 {
        let ops = repeat_op(Op::ReleaseShared, n);
        assert(ops[0] == Op::ReleaseShared);
        assert(ops.drop_first() =~= repeat_op(Op::ReleaseShared, (n - 1) as nat));
        lemma_shared_releases((v - 1) as usize, (n - 1) as nat);
    }
}

/// Releasing `n` shared holders after `n` successful shared acquires returns
/// the counter to its initial, empty state.
pub proof fn lemma_balanced_shared_round_trip(n: nat)
    requires
        n < UNIQUE_BIT,
    ensures
        ops_allowed(0, repeat_op(Op::AcquireShared, n) + repeat_op(Op::ReleaseShared, n)),
        run(0, repeat_op(Op::AcquireShared, n) + repeat_op(Op::ReleaseShared, n)) == 0,
{
    lemma_shared_acquires(0, n);
    lemma_shared_releases(n as usize, n);
    lemma_run_append(0, repeat_op(Op::AcquireShared, n), repeat_op(Op::ReleaseShared, n));
}

} // verus!
