//! A single-value slot: store a value, copy it out again.

use vstd::prelude::*;

verus! {

/// One slot holding a value of type `T`.
///
/// The slot is written through `&mut`: exclusive access is what keeps two
/// accessors from touching it at once.
pub struct Cell<T> {
    value: T,
}

impl<T> View for Cell<T> {
    type V = T;

    /// The value currently stored in the slot.
    closed spec fn view(&self) -> T {
        self.value
    }
}

impl<T> Cell<T> {
    /// The cell that a write of `value` leaves behind, whatever it held.
    pub closed spec fn written(self, value: T) -> Cell<T> {
        Cell { value }
    }

    /// Creates a cell that holds `value`.
    pub fn new(value: T) -> (cell: Self)
        ensures
            cell@ == value,
    {
        Self { value }
    }

    /// Overwrites the stored value with `value`.
    pub fn set(&mut self, value: T)
        ensures
            *final(self) == old(self).written(value),
            final(self)@ == value,
        no_unwind
    {
        self.value = value;
    }

    /// Returns a copy of the stored value and leaves the cell as it is.
    pub fn get(&self) -> (value: T) where T: Copy
        ensures
            value == self@,
    {
        self.value
    }

    /// Round trip: what is read from a cell right after a write is the value
    /// that was written.
    pub proof fn lemma_set_then_get(self, value: T)
        ensures
            self.written(value)@ == value,
    {
    }
}

} // verus!
