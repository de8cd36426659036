//! A model of the owning collection at its boundary with the guards: per
//! storable type one column of element values together with one borrow
//! counter. A storable type is identified by its column key; a key with no
//! column stands for a type the collection does not store. The collection
//! owns the memory and the counters; guards only direct its four borrow
//! operations and its element accesses.

use vstd::prelude::*;

use crate::multi_threaded::Borrow;
use crate::state::{op_allowed, shared_acquire_ok, exclusive_acquire_ok, step, Op};

verus! {

/// Contiguous storage for one storable type across all rows, protected by
/// its own borrow counter.
pub struct Column<T> {
    state: Borrow,
    values: Vec<T>,
}

/// What a column is in specifications: its counter word and its element
/// values.
pub struct ColumnModel<T> {
    pub state: usize,
    pub values: Seq<T>,
}

impl<T> View for Column<T> {
    type V = ColumnModel<T>;

    closed spec fn view(&self) -> ColumnModel<T> {
        ColumnModel { state: self.state@, values: self.values@ }
    }
}

/// The owning collection: one slot per storable type, holding that type's
/// column or nothing.
pub struct Store<T> {
    columns: Vec<Option<Column<T>>>,
}

impl<T> View for Store<T> {
    type V = Seq<Option<ColumnModel<T>>>;

    closed spec fn view(&self) -> Seq<Option<ColumnModel<T>>> {
        Seq::new(
            self.columns@.len(),
            |i: int|
                match self.columns@[i] {
                    Some(c) => Some(c@),
                    None => None,
                },
        )
    }
}

/// The key names a column the collection stores.
pub open spec fn has_col<T>(s: Seq<Option<ColumnModel<T>>>, key: usize) -> bool {
    key < s.len() && s[key as int] is Some
}

/// The counter word of the column under `key`.
pub open spec fn col_state<T>(s: Seq<Option<ColumnModel<T>>>, key: usize) -> usize {
    s[key as int].unwrap().state
}

/// The element values of the column under `key`.
pub open spec fn col_values<T>(s: Seq<Option<ColumnModel<T>>>, key: usize) -> Seq<T> {
    s[key as int].unwrap().values
}

/// The collection after one counter operation on the column under `key`:
/// that column's counter steps, its values and every other column stay as
/// they were.
pub open spec fn store_step<T>(s: Seq<Option<ColumnModel<T>>>, key: usize, op: Op) -> Seq<
    Option<ColumnModel<T>>,
> {
    s.update(
        key as int,
        Some(ColumnModel { state: step(col_state(s, key), op), values: col_values(s, key) }),
    )
}

/// The collection after one element of the column under `key` is overwritten:
/// the counters of every column stay as they were.
pub open spec fn store_write<T>(
    s: Seq<Option<ColumnModel<T>>>,
    key: usize,
    row: int,
    value: T,
) -> Seq<Option<ColumnModel<T>>> {
    s.update(
        key as int,
        Some(
            ColumnModel {
                state: col_state(s, key),
                values: col_values(s, key).update(row, value),
            },
        ),
    )
}

impl<T> Store<T> {
    /// A collection that stores nothing.
    pub fn new() -> (r: Self)
        ensures
            r@ == Seq::<Option<ColumnModel<T>>>::empty(),
    {
        Self { columns: Vec::new() }
    }

    /// Add a column for the next storable type, with its elements and a
    /// fresh counter.
    pub fn push_column(&mut self, values: Vec<T>)
        ensures
            final(self)@ == old(self)@.push(Some(ColumnModel { state: 0, values: values@ })),
    {
        let column = Column { state: Borrow::new(), values };
        self.columns.push(Some(column));
        proof {
            assert(self@ =~= old(self)@.push(Some(ColumnModel { state: 0, values: values@ })));
        }
    }

    /// Mark the next storable type as one this collection does not store.
    pub fn push_absent(&mut self)
        ensures
            final(self)@ == old(self)@.push(None),
    {
        self.columns.push(None);
        proof {
            assert(self@ =~= old(self)@.push(None));
        }
    }

    /// Look the column for a storable type up: its row count if the
    /// collection stores that type, nothing otherwise.
    pub fn get_column(&self, key: usize) -> (r: Option<usize>)
        ensures
            r is Some <==> has_col(self@, key),
            r is Some ==> r.unwrap() == col_values(self@, key).len(),
    {
        if key < self.columns.len() {
            match &self.columns[key] {
                Some(column) => Some(column.values.len()),
                None => None,
            }
        } else {
            None
        }
    }

    /// Register one more shared holder on the column under `key`.
    pub fn borrow_shared(&mut self, key: usize) -> (r: bool)
        requires
            has_col(old(self)@, key),
            col_state(old(self)@, key) != usize::MAX,
        ensures
            r == shared_acquire_ok(col_state(old(self)@, key)),
            final(self)@ == store_step(old(self)@, key, Op::AcquireShared),
    {
        let r = match &mut self.columns[key] {
            Some(column) => column.state.borrow(),
            None => false,
        };
        proof {
            assert(self@ =~= store_step(old(self)@, key, Op::AcquireShared));
        }
        r
    }

    /// Take the column under `key` exclusively.
    pub fn borrow_exclusive(&mut self, key: usize) -> (r: bool)
        requires
            has_col(old(self)@, key),
        ensures
            r == exclusive_acquire_ok(col_state(old(self)@, key)),
            final(self)@ == store_step(old(self)@, key, Op::AcquireExclusive),
    {
        let r = match &mut self.columns[key] {
            Some(column) => column.state.borrow_mut(),
            None => false,
        };
        proof {
            assert(self@ =~= store_step(old(self)@, key, Op::AcquireExclusive));
        }
        r
    }

    /// Drop one shared holder of the column under `key`.
    pub fn release_shared(&mut self, key: usize)
        requires
            has_col(old(self)@, key),
            op_allowed(col_state(old(self)@, key), Op::ReleaseShared),
        ensures
            final(self)@ == store_step(old(self)@, key, Op::ReleaseShared),
    {
        match &mut self.columns[key] {
            Some(column) => column.state.release(),
            None => (),
        }
        proof {
            assert(self@ =~= store_step(old(self)@, key, Op::ReleaseShared));
        }
    }

    /// Clear the exclusive flag of the column under `key`.
    pub fn release_exclusive(&mut self, key: usize)
        requires
            has_col(old(self)@, key),
            op_allowed(col_state(old(self)@, key), Op::ReleaseExclusive),
        ensures
            final(self)@ == store_step(old(self)@, key, Op::ReleaseExclusive),
    {
        match &mut self.columns[key] {
            Some(column) => column.state.release_mut(),
            None => (),
        }
        proof {
            assert(self@ =~= store_step(old(self)@, key, Op::ReleaseExclusive));
        }
    }

    /// The element of the column under `key` at `row`. The caller guarantees
    /// the row is valid; access rights come from the guard that holds the
    /// borrow.
    pub fn read<'a>(&'a self, key: usize, row: usize) -> (r: &'a T)
        requires
            has_col(self@, key),
            row < col_values(self@, key).len(),
        ensures
            *r == col_values(self@, key)[row as int],
    {
        match &self.columns[key] {
            Some(column) => &column.values[row],
            None => unreached(),
        }
    }

    /// Overwrite the element of the column under `key` at `row`. The caller
    /// guarantees the row is valid; access rights come from the exclusive
    /// guard that holds the borrow.
    pub fn write(&mut self, key: usize, row: usize, value: T)
        requires
            has_col(old(self)@, key),
            row < col_values(old(self)@, key).len(),
        ensures
            final(self)@ == store_write(old(self)@, key, row as int, value),
    {
        match &mut self.columns[key] {
            Some(column) => {
                column.values[row] = value;
            },
            None => (),
        }
        proof {
            assert(self@ =~= store_write(old(self)@, key, row as int, value));
        }
    }
}

/// A value written through an exclusive holder stays in place across the
/// exclusive release and a later shared acquire, so a reader that acquires
/// afterwards reads exactly that value.
pub proof fn lemma_write_visible_after_release<T>(
    s0: Seq<Option<ColumnModel<T>>>,
    key: usize,
    row: int,
    value: T,
)
    requires
        has_col(s0, key),
        0 <= row < col_values(s0, key).len(),
    ensures
        ({
            let s1 = store_write(s0, key, row, value);
            let s2 = store_step(s1, key, Op::ReleaseExclusive);
            let s3 = store_step(s2, key, Op::AcquireShared);
            col_values(s3, key)[row] == value
        }),
{
}

} // verus!
