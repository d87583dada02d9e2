//! A cell whose payload is lent out under run-time accounting: any number of
//! read guards, or one write guard, never both.
//!
//! A request that cannot be granted is answered with `None` at once; nothing
//! waits and nothing is retried. A guard is a plain value that its holder
//! hands back with `release`; it keeps no reference into the cell, so several
//! guards can be alive while the cell is asked again. What ties a guard to
//! its cell is the cell's identity, which the guard remembers.

use core::marker::PhantomData;
use vstd::prelude::*;
use crate::cell::Cell;
use crate::state::{BorrowState, RefState};

verus! {

/// What a [`RefCell`] is, mathematically: the payload and how it is lent out.
pub struct RefCellView<T> {
    pub value: T,
    pub state: BorrowState,
}

impl<T> RefCellView<T> {
    /// The same payload, lent out as `state` says.
    pub open spec fn with_state(self, state: BorrowState) -> RefCellView<T> {
        RefCellView { value: self.value, state }
    }

    /// Another payload, lent out in the same way.
    pub open spec fn with_value(self, value: T) -> RefCellView<T> {
        RefCellView { value, state: self.state }
    }
}

/// A payload together with the record of the guards that are alive for it.
pub struct RefCell<T> {
    value: T,
    state: Cell<RefState>,
    id: Ghost<int>,
}

impl<T> View for RefCell<T> {
    type V = RefCellView<T>;

    closed spec fn view(&self) -> RefCellView<T> {
        RefCellView { value: self.value, state: self.state@@ }
    }
}

/// A granted shared borrow: the right to read the payload until released.
pub struct Ref<T> {
    cell: Ghost<int>,
    payload: PhantomData<T>,
}

/// A granted exclusive borrow: the right to read and write the payload until
/// released.
pub struct RefMut<T> {
    cell: Ghost<int>,
    payload: PhantomData<T>,
}

/// Hands a mutable borrow on unchanged. A field of a type with an invariant
/// is lent out mutably only as the argument of a call that cannot unwind.
fn lend<T>(slot: &mut T) -> (lent: &mut T)
    ensures
        *lent == *old(slot),
        *final(slot) == *final(lent),
    no_unwind
{
    slot
}

impl<T> RefCell<T> {
    /// The recorded state never counts zero readers as shared.
    #[verifier::type_invariant]
    pub open spec fn wf(&self) -> bool {
        self@.state.wf()
    }

    /// The identity of this cell. It stays with the cell for good, and
    /// nothing is known of it beyond that: no proof can take two cells for
    /// one.
    pub closed spec fn id(&self) -> int {
        self.id@
    }

    /// Creates a cell that holds `value` and has no guard alive.
    pub fn new(value: T) -> (cell: Self)
        ensures
            cell@ == (RefCellView { value, state: BorrowState::Unshared }),
    {
        Self { value, state: Cell::new(RefState::Unshared), id: Ghost(arbitrary()) }
    }

    /// Requests a read guard. It is granted unless the write guard is alive;
    /// a denied request leaves the cell exactly as it was.
    ///
    /// The count of read guards is a `usize`; one more must fit.
    pub fn borrow(&mut self) -> (guard: Option<Ref<T>>)
        requires
            old(self)@.state.has_room(),
        ensures
            guard is Some <==> old(self)@.state.acquire_shared() is Some,
            guard matches Some(granted) ==> granted.cell_id() == old(self).id(),
            final(self)@ == (match old(self)@.state.acquire_shared() {
                Some(next) => old(self)@.with_state(next),
                None => old(self)@,
            }),
            final(self)@.state.wf(),
            final(self).id() == old(self).id(),
    {
        match self.state.get().acquire_shared() {
            Some(next) => {
                self.state.set(next);
                Some(Ref::new(&*self))
            },
            None => None,
        }
    }

    /// Requests the write guard. It is granted only while no guard at all is
    /// alive; a denied request leaves the cell exactly as it was.
    pub fn borrow_mut(&mut self) -> (guard: Option<RefMut<T>>)
        ensures
            guard is Some <==> old(self)@.state.acquire_exclusive() is Some,
            guard matches Some(granted) ==> granted.cell_id() == old(self).id(),
            final(self)@ == (match old(self)@.state.acquire_exclusive() {
                Some(next) => old(self)@.with_state(next),
                None => old(self)@,
            }),
            final(self)@.state.wf(),
            final(self).id() == old(self).id(),
    {
        proof {
            use_type_invariant(&*self);
        }
        match self.state.get().acquire_exclusive() {
            Some(next) => {
                self.state.set(next);
                Some(RefMut::new(&*self))
            },
            None => None,
        }
    }
}

impl<T> Ref<T> {
    /// The identity of the cell that granted this guard.
    pub closed spec fn cell_id(&self) -> int {
        self.cell@
    }

    fn new(cell: &RefCell<T>) -> (guard: Self)
        ensures
            guard.cell_id() == cell.id(),
    {
        Self { cell: Ghost(cell.id()), payload: PhantomData }
    }

    /// Reads the payload of `cell` through this guard, without copying it.
    /// The borrow that comes back ends before the guard does.
    ///
    /// `cell` is the cell that granted this guard; while the guard is alive,
    /// that cell is shared.
    pub fn get<'a>(&'a self, cell: &'a RefCell<T>) -> (payload: &'a T)
        requires
            self.cell_id() == cell.id(),
            cell@.state is Shared,
        ensures
            *payload == cell@.value,
    {
        &cell.value
    }

    /// Ends this borrow: `cell` counts one read guard fewer, and is unshared
    /// again when this was the last one.
    ///
    /// `cell` is the cell that granted this guard; while the guard is alive,
    /// that cell is shared.
    pub fn release(self, cell: &mut RefCell<T>)
        requires
            self.cell_id() == old(cell).id(),
            old(cell)@.state is Shared,
        ensures
            final(cell).id() == old(cell).id(),
            final(cell)@.state.wf(),
            old(cell)@.state.release_shared() matches Some(next)
                && final(cell)@ == old(cell)@.with_state(next),
    {
        proof {
            use_type_invariant(&*cell);
        }
        let next = cell.state.get().release_shared();
        cell.state.set(next);
    }
}

impl<T> RefMut<T> {
    /// The identity of the cell that granted this guard.
    pub closed spec fn cell_id(&self) -> int {
        self.cell@
    }

    fn new(cell: &RefCell<T>) -> (guard: Self)
        ensures
            guard.cell_id() == cell.id(),
    {
        Self { cell: Ghost(cell.id()), payload: PhantomData }
    }

    /// Reaches the payload of `cell` through this guard for reading and
    /// writing, without copying it. The borrow that comes back ends before
    /// the guard does; what the caller leaves behind it is the payload from
    /// then on.
    ///
    /// `cell` is the cell that granted this guard; while the guard is alive,
    /// that cell is exclusive.
    pub fn get<'a>(&'a self, cell: &'a mut RefCell<T>) -> (payload: &'a mut T)
        requires
            self.cell_id() == old(cell).id(),
            old(cell)@.state is Exclusive,
        ensures
            *payload == old(cell)@.value,
            final(cell).id() == old(cell).id(),
            final(cell)@ == old(cell)@.with_value(*final(payload)),
    {
        lend(&mut cell.value)
    }

    /// Ends this borrow: `cell` is unshared again.
    ///
    /// `cell` is the cell that granted this guard; while the guard is alive,
    /// that cell is exclusive.
    pub fn release(self, cell: &mut RefCell<T>)
        requires
            self.cell_id() == old(cell).id(),
            old(cell)@.state is Exclusive,
        ensures
            final(cell).id() == old(cell).id(),
            final(cell)@.state.wf(),
            old(cell)@.state.release_exclusive() matches Some(next)
                && final(cell)@ == old(cell)@.with_state(next),
    {
        let next = cell.state.get().release_exclusive();
        cell.state.set(next);
    }
}

} // verus!
