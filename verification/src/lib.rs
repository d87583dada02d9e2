//! Two cells for a single owner: a slot that is overwritten and copied out,
//! and a cell that lends its payload out under run-time accounting.
//!
//! - [`cell`]: [`cell::Cell`], one slot with `set` and `get`.
//! - [`state`]: the sharing state machine, as mathematics
//!   ([`state::BorrowState`]) and as the value a cell stores
//!   ([`state::RefState`]).
//! - [`ref_cell`]: [`ref_cell::RefCell`] and its two guards,
//!   [`ref_cell::Ref`] and [`ref_cell::RefMut`].
//! - [`ledger`]: the protocol over whole histories of operations, with the
//!   laws that hold of every history.
//!
//! Nothing here blocks, locks or synchronises: every operation is one
//! sequential step on a value that its caller holds exclusively.

pub mod cell;
pub mod ledger;
pub mod ref_cell;
pub mod state;
