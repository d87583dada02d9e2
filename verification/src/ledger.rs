//! The borrow protocol over whole histories.
//!
//! A [`Ledger`] sets what a cell records beside the guards that are actually
//! alive for it. Each [`Op`] stands for one call on the cell or on one of its
//! guards, and [`Ledger::step`] does to the cell what that call ensures.
//! Replaying a history in which a guard is only used or destroyed while it is
//! alive, the recorded state always accounts for exactly the guards alive;
//! the laws of the protocol follow from that.

use vstd::prelude::*;
use crate::ref_cell::RefCellView;
use crate::state::BorrowState;

verus! {

/// One operation on a cell.
pub enum Op<T> {
    /// A read guard is requested.
    Borrow,
    /// The write guard is requested.
    BorrowMut,
    /// This value is stored through the write guard.
    Write(T),
    /// A read guard is released.
    ReleaseRef,
    /// The write guard is released.
    ReleaseRefMut,
}

/// A cell beside the guards that are alive for it.
pub struct Ledger<T> {
    pub cell: RefCellView<T>,
    pub readers: nat,
    pub writers: nat,
}

impl<T> Ledger<T> {
    /// A new cell around `value`: unshared, no guard alive.
    pub open spec fn fresh(value: T) -> Ledger<T> {
        Ledger {
            cell: RefCellView { value, state: BorrowState::Unshared },
            readers: 0,
            writers: 0,
        }
    }

    /// Whether `op` can happen now: only a guard that is alive can be used
    /// or released.
    pub open spec fn permits(self, op: Op<T>) -> bool {
        match op {
            Op::Borrow | Op::BorrowMut => true,
            Op::Write(_) | Op::ReleaseRefMut => self.writers >= 1,
            Op::ReleaseRef => self.readers >= 1,
        }
    }

    /// The ledger after `op`. A granted request adds a guard and a release
    /// takes one away; a request that is denied changes nothing.
    pub open spec fn step(self, op: Op<T>) -> Ledger<T> {
        match op {
            Op::Borrow => match self.cell.state.acquire_shared() {
                Some(next) => Ledger {
                    cell: self.cell.with_state(next),
                    readers: self.readers + 1,
                    writers: self.writers,
                },
                None => self,
            },
            Op::BorrowMut => match self.cell.state.acquire_exclusive() {
                Some(next) => Ledger {
                    cell: self.cell.with_state(next),
                    readers: self.readers,
                    writers: self.writers + 1,
                },
                None => self,
            },
            Op::Write(value) => Ledger {
                cell: self.cell.with_value(value),
                readers: self.readers,
                writers: self.writers,
            },
            Op::ReleaseRef => match self.cell.state.release_shared() {
                Some(next) => Ledger {
                    cell: self.cell.with_state(next),
                    readers: (self.readers - 1) as nat,
                    writers: self.writers,
                },
                None => self,
            },
            Op::ReleaseRefMut => match self.cell.state.release_exclusive() {
                Some(next) => Ledger {
                    cell: self.cell.with_state(next),
                    readers: self.readers,
                    writers: (self.writers - 1) as nat,
                },
                None => self,
            },
        }
    }

    /// The recorded state accounts for exactly the guards that are alive.
    pub open spec fn balanced(self) -> bool {
        &&& self.cell.state.wf()
        &&& self.cell.state.readers() == self.readers
        &&& self.cell.state.writers() == self.writers
    }
}

/// The ledger of a new cell around `initial` after `ops`, oldest first.
pub open spec fn replay<T>(initial: T, ops: Seq<Op<T>>) -> Ledger<T>
    decreases ops.len(),
{
    if ops.len() == 0 {
        Ledger::fresh(initial)
    } else {
        replay(initial, ops.drop_last()).step(ops.last())
    }
}

/// Whether every operation of `ops` could happen when its turn came.
pub open spec fn lawful<T>(initial: T, ops: Seq<Op<T>>) -> bool
    decreases ops.len(),
{
    ops.len() == 0 || {
        &&& lawful(initial, ops.drop_last())
        &&& replay(initial, ops.drop_last()).permits(ops.last())
    }
}

/// `n` requests for a read guard in a row.
pub open spec fn borrows<T>(n: nat) -> Seq<Op<T>> {
    Seq::new(n, |i: int| Op::Borrow)
}

/// One permitted operation keeps the ledger balanced.
pub proof fn lemma_step_balanced<T>(ledger: Ledger<T>, op: Op<T>)
    requires
        ledger.balanced(),
        ledger.permits(op),
    ensures
        ledger.step(op).balanced(),
{
}

/// After a lawful history the recorded state accounts for exactly the guards
/// alive.
pub proof fn lemma_replay_balanced<T>(initial: T, ops: Seq<Op<T>>)
    requires
        lawful(initial, ops),
    ensures
        replay(initial, ops).balanced(),
    decreases ops.len(),
{
    if ops.len() > 0 {
        lemma_replay_balanced(initial, ops.drop_last());
        lemma_step_balanced(replay(initial, ops.drop_last()), ops.last());
    }
}

/// The beginning of a lawful history is a lawful history.
pub proof fn lemma_lawful_prefix<T>(initial: T, ops: Seq<Op<T>>, k: int)
    requires
        lawful(initial, ops),
        0 <= k <= ops.len(),
    ensures
        lawful(initial, ops.take(k)),
    decreases ops.len(),
{
    if k == ops.len() {
        assert(ops.take(k) =~= ops);
    } else {
        lemma_lawful_prefix(initial, ops.drop_last(), k);
        assert(ops.take(k) =~= ops.drop_last().take(k));
    }
}

/// Mutual exclusion: at no point of a lawful history is a write guard alive
/// together with a read guard or with another write guard.
pub proof fn lemma_mutual_exclusion<T>(initial: T, ops: Seq<Op<T>>, k: int)
    requires
        lawful(initial, ops),
        0 <= k <= ops.len(),
    ensures
        replay(initial, ops.take(k)).writers <= 1,
        replay(initial, ops.take(k)).writers == 1 ==> replay(initial, ops.take(k)).readers == 0,
{
    lemma_lawful_prefix(initial, ops, k);
    lemma_replay_balanced(initial, ops.take(k));
}

/// A guard that is alive can always be used and released: after a lawful
/// history the recorded state is never at odds with the kind of a guard
/// alive.
pub proof fn lemma_live_guard_is_accounted<T>(initial: T, ops: Seq<Op<T>>)
    requires
        lawful(initial, ops),
    ensures
        replay(initial, ops).readers >= 1 ==> replay(initial, ops).cell.state is Shared,
        replay(initial, ops).readers >= 1 ==> replay(initial, ops).cell.state.release_shared()
            is Some,
        replay(initial, ops).writers >= 1 ==> replay(initial, ops).cell.state is Exclusive,
        replay(initial, ops).writers >= 1 ==> replay(initial, ops).cell.state.release_exclusive()
            is Some,
{
    lemma_replay_balanced(initial, ops);
}

/// Unbounded sharing: while no write guard is alive, any number of requests
/// for a read guard are all granted, the guards are all alive together, and
/// the payload that they reach is the one that was there before.
pub proof fn lemma_unbounded_sharing<T>(initial: T, ops: Seq<Op<T>>, n: nat)
    requires
        lawful(initial, ops),
        replay(initial, ops).writers == 0,
    ensures
        lawful(initial, ops + borrows(n)),
        replay(initial, ops + borrows(n)).readers == replay(initial, ops).readers + n,
        replay(initial, ops + borrows(n)).writers == 0,
        replay(initial, ops + borrows(n)).cell.value == replay(initial, ops).cell.value,
        forall|i: nat|
            i < n ==> (#[trigger] replay(initial, ops + borrows(i))).cell.state.acquire_shared()
                is Some,
    decreases n,
{
    if n == 0 {
        assert(ops + borrows(0) =~= ops);
    } else {
        let shorter = (n - 1) as nat;
        lemma_unbounded_sharing(initial, ops, shorter);
        lemma_replay_balanced(initial, ops + borrows(shorter));
        assert((ops + borrows(n)).drop_last() =~= ops + borrows(shorter));
    }
}

/// While a read guard is alive, no permitted operation changes the payload.
pub proof fn lemma_payload_stable_while_shared<T>(initial: T, ops: Seq<Op<T>>, op: Op<T>)
    requires
        lawful(initial, ops),
        replay(initial, ops).readers >= 1,
        replay(initial, ops).permits(op),
    ensures
        replay(initial, ops).step(op).cell.value == replay(initial, ops).cell.value,
{
    lemma_replay_balanced(initial, ops);
}

/// Release restores availability: once every guard of a lawful history has
/// been released, a read guard and the write guard can both be had again.
pub proof fn lemma_release_restores_availability<T>(initial: T, ops: Seq<Op<T>>)
    requires
        lawful(initial, ops),
        replay(initial, ops).readers == 0,
        replay(initial, ops).writers == 0,
    ensures
        replay(initial, ops).cell.state == BorrowState::Unshared,
        replay(initial, ops).cell.state.acquire_shared() is Some,
        replay(initial, ops).cell.state.acquire_exclusive() is Some,
{
    lemma_replay_balanced(initial, ops);
}

/// A request that is denied leaves payload, recorded state and guards as
/// they were.
pub proof fn lemma_denial_changes_nothing<T>(ledger: Ledger<T>)
    ensures
        ledger.cell.state.acquire_shared() is None ==> ledger.step(Op::Borrow) == ledger,
        ledger.cell.state.acquire_exclusive() is None ==> ledger.step(Op::BorrowMut) == ledger,
{
}

} // verus!
