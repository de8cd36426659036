//! A runtime aliasing guard: at most one exclusive accessor, or any number of
//! concurrent shared accessors, to a logical resource slot — never both.
//!
//! The borrow counter tracks the aliasing state of one slot as a single
//! machine word whose top half encodes the "exclusively held" flag and whose
//! remaining range counts shared holders. Guard values acquire a borrow on
//! construction and hand it back exactly once on release, exposing the
//! protected element in between. An element handle manufactures guards on
//! demand and softens "no such column" into an absent result.

pub mod entity;
pub mod guards;
pub mod multi_threaded;
pub mod single_threaded;
pub mod state;
pub mod store;
