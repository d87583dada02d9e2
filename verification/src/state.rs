//! The sharing state of a borrow-checked cell and its transitions.
//!
//! [`BorrowState`] is the mathematical state machine: its counter is a `nat`
//! and its four transitions are total functions into `Option`, where `None`
//! means that the request is turned down. [`RefState`] is the machine-sized
//! value that a cell stores; each operation on it computes the transition of
//! the same name on its view.

use vstd::prelude::*;

verus! {

/// How a payload is lent out at one instant.
pub enum BorrowState {
    /// No guard is alive.
    Unshared,
    /// This many read guards are alive.
    Shared(nat),
    /// One write guard is alive.
    Exclusive,
}

impl BorrowState {
    /// A shared state counts at least one reader.
    pub open spec fn wf(self) -> bool {
        self matches BorrowState::Shared(n) ==> n >= 1
    }

    /// Whether one more read guard still fits a counter of machine size.
    pub open spec fn has_room(self) -> bool {
        self matches BorrowState::Shared(n) ==> n < usize::MAX
    }

    /// The number of read guards that the state accounts for.
    pub open spec fn readers(self) -> nat {
        match self {
            BorrowState::Shared(n) => n,
            _ => 0,
        }
    }

    /// The number of write guards that the state accounts for.
    pub open spec fn writers(self) -> nat {
        match self {
            BorrowState::Exclusive => 1,
            _ => 0,
        }
    }

    /// The state after one more read guard is requested, or `None` where the
    /// request is denied.
    pub open spec fn acquire_shared(self) -> Option<BorrowState> {
        match self {
            BorrowState::Unshared => Some(BorrowState::Shared(1)),
            BorrowState::Shared(n) => Some(BorrowState::Shared(n + 1)),
            BorrowState::Exclusive => None,
        }
    }

    /// The state after a write guard is requested, or `None` where the
    /// request is denied.
    pub open spec fn acquire_exclusive(self) -> Option<BorrowState> {
        match self {
            BorrowState::Unshared => Some(BorrowState::Exclusive),
            _ => None,
        }
    }

    /// The state after one read guard is destroyed, or `None` where the state
    /// accounts for no read guard.
    pub open spec fn release_shared(self) -> Option<BorrowState> {
        match self {
            BorrowState::Shared(n) if n == 1 => Some(BorrowState::Unshared),
            BorrowState::Shared(n) if n > 1 => Some(BorrowState::Shared((n - 1) as nat)),
            _ => None,
        }
    }

    /// The state after the write guard is destroyed, or `None` where the
    /// state accounts for no write guard.
    pub open spec fn release_exclusive(self) -> Option<BorrowState> {
        match self {
            BorrowState::Exclusive => Some(BorrowState::Unshared),
            _ => None,
        }
    }
}

/// The sharing state as a cell stores it.
#[derive(Clone, Copy, Debug, PartialEq, Eq, Structural)]
pub enum RefState {
    /// No guard is alive.
    Unshared,
    /// This many read guards are alive.
    Shared(usize),
    /// One write guard is alive.
    Exclusive,
}

impl View for RefState {
    type V = BorrowState;

    open spec fn view(&self) -> BorrowState {
        match *self {
            RefState::Unshared => BorrowState::Unshared,
            RefState::Shared(n) => BorrowState::Shared(n as nat),
            RefState::Exclusive => BorrowState::Exclusive,
        }
    }
}

impl RefState {
    /// Decides a request for a read guard: the next state where it is
    /// granted, `None` where it is denied. The count of readers is a
    /// `usize`; one more must fit.
    pub fn acquire_shared(self) -> (granted: Option<RefState>)
        requires
            self@.has_room(),
        ensures
            (match self@.acquire_shared() {
                Some(next) => granted matches Some(state) && state@ == next,
                None => granted is None,
            }),
    {
        match self {
            RefState::Unshared => Some(RefState::Shared(1)),
            RefState::Shared(n) => Some(RefState::Shared(n + 1)),
            RefState::Exclusive => None,
        }
    }

    /// Decides a request for a write guard: the next state where it is
    /// granted, `None` where it is denied.
    pub fn acquire_exclusive(self) -> (granted: Option<RefState>)
        ensures
            (match self@.acquire_exclusive() {
                Some(next) => granted matches Some(state) && state@ == next,
                None => granted is None,
            }),
    {
        match self {
            RefState::Unshared => Some(RefState::Exclusive),
            _ => None,
        }
    }

    /// The state after one read guard is destroyed. The state must account
    /// for a read guard; any other state is a broken invariant, on which
    /// compiled code stops at once.
    pub fn release_shared(self) -> (next: RefState)
        requires
            self@.release_shared() is Some,
        ensures
            self@.release_shared() == Some(next@),
    {
        match self {
            RefState::Shared(n) => {
                if n == 1 {
                    RefState::Unshared
                } else if n > 1 {
                    RefState::Shared(n - 1)
                } else {
                    unreached()
                }
            },
            RefState::Unshared | RefState::Exclusive => unreached(),
        }
    }

    /// The state after the write guard is destroyed. The state must account
    /// for the write guard; any other state is a broken invariant, on which
    /// compiled code stops at once.
    pub fn release_exclusive(self) -> (next: RefState)
        requires
            self@.release_exclusive() is Some,
        ensures
            self@.release_exclusive() == Some(next@),
    {
        match self {
            RefState::Exclusive => RefState::Unshared,
            RefState::Unshared | RefState::Shared(_) => unreached(),
        }
    }
}

} // verus!
