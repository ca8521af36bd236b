//! Single-threaded interior mutability with a runtime-checked borrow state.
//!
//! A [`MutableCell`] wraps a value together with its [`BorrowState`]: either
//! unborrowed, shared by `n >= 1` readers, or exclusively borrowed by one
//! writer.  Requesting a borrow never blocks: a request that would break the
//! aliasing discipline fails at once with
//! [`BorrowConflict`](crate::errors::BorrowConflict).  A successful request
//! hands out a guard — [`SharedGuard`] or [`ExclusiveGuard`] — and the guard
//! must be handed back, exactly once, to [`MutableCell::release_shared`] or
//! [`MutableCell::release_exclusive`].  Guards are move-only values without a
//! public constructor, so each one is spent on the release that consumes it.
//!
//! Shared and exclusive access can never coexist, and at most one exclusive
//! borrow exists at a time: see [`lemma_shared_blocks_exclusive`] and
//! [`lemma_shared_always_granted`].

use crate::errors::BorrowConflict;
use vstd::prelude::*;

verus! {

/// The runtime-tracked aliasing mode of a cell.
pub enum BorrowState {
    /// No borrow is outstanding.
    Unborrowed,
    /// `readers` shared borrows are outstanding; always at least one.
    Shared { readers: u64 },
    /// One exclusive borrow is outstanding.
    Exclusive,
}

/// Evidence of one outstanding shared borrow; spent by `release_shared`.
pub struct SharedGuard {
    token: (),
}

/// Evidence of the outstanding exclusive borrow; spent by `release_exclusive`.
pub struct ExclusiveGuard {
    token: (),
}

/// A value with a runtime-checked borrow state.
pub struct MutableCell<T> {
    value: T,
    state: BorrowState,
}

/// A shared borrow is granted exactly while no exclusive borrow is
/// outstanding.
pub open spec fn shared_allowed(st: BorrowState) -> bool {
    !(st is Exclusive)
}

/// An exclusive borrow is granted exactly while no borrow at all is
/// outstanding.
pub open spec fn exclusive_allowed(st: BorrowState) -> bool {
    st is Unborrowed
}

/// The state after a granted shared borrow: one more reader.
pub open spec fn after_shared(st: BorrowState) -> BorrowState {
    match st {
        BorrowState::Unborrowed => BorrowState::Shared { readers: 1 },
        BorrowState::Shared { readers } => BorrowState::Shared {
            readers: (readers + 1) as u64,
        },
        BorrowState::Exclusive => BorrowState::Exclusive,
    }
}

/// The state after a shared guard is released: one reader fewer.
pub open spec fn after_release_shared(st: BorrowState) -> BorrowState {
    match st {
        BorrowState::Shared { readers } => if readers == 1 {
            BorrowState::Unborrowed
        } else {
            BorrowState::Shared { readers: (readers - 1) as u64 }
        },
        _ => st,
    }
}

/// A cell's state is well-formed when a shared mode always has at least one
/// reader.
pub open spec fn state_wf(st: BorrowState) -> bool {
    st matches BorrowState::Shared { readers } ==> readers >= 1
}

impl<T> MutableCell<T> {
    /// The current borrow state, for specifications.
    pub closed spec fn state(&self) -> BorrowState {
        self.state
    }

    /// The wrapped value, for specifications.
    pub closed spec fn value(&self) -> T {
        self.value
    }

    /// The cell's invariant: its shared mode always has at least one reader.
    pub open spec fn wf(&self) -> bool {
        state_wf(self.state())
    }

    /// Wraps `value`, unborrowed.
    pub fn new(value: T) -> (c: MutableCell<T>)
        ensures
            c.wf(),
            c.state() is Unborrowed,
            c.value() == value,
    {
        MutableCell { value, state: BorrowState::Unborrowed }
    }

    /// Requests a shared (read) borrow.  Fails with `BorrowConflict` exactly
    /// while an exclusive borrow is outstanding; otherwise one more reader is
    /// recorded and a guard for it is returned.  Never blocks.
    pub fn borrow_shared(&mut self) -> (r: Result<SharedGuard, BorrowConflict>)
        requires
            old(self).wf(),
            old(self).state() matches BorrowState::Shared { readers } ==> readers < u64::MAX,
        ensures
            final(self).wf(),
            final(self).value() == old(self).value(),
            r is Ok <==> shared_allowed(old(self).state()),
            r is Ok ==> final(self).state() == after_shared(old(self).state()),
            r is Err ==> final(self).state() == old(self).state(),
    {
        match self.state {
            BorrowState::Unborrowed => {
                self.state = BorrowState::Shared { readers: 1 };
                Ok(SharedGuard { token: () })
            },
            BorrowState::Shared { readers } => {
                self.state = BorrowState::Shared { readers: readers + 1 };
                Ok(SharedGuard { token: () })
            },
            BorrowState::Exclusive => Err(BorrowConflict),
        }
    }

    /// Requests an exclusive (write) borrow.  Fails with `BorrowConflict`
    /// exactly while any borrow is outstanding; otherwise the cell moves to
    /// the exclusive mode and the guard for it is returned.  Never blocks.
    pub fn borrow_exclusive(&mut self) -> (r: Result<ExclusiveGuard, BorrowConflict>)
        requires
            old(self).wf(),
        ensures
            final(self).wf(),
            final(self).value() == old(self).value(),
            r is Ok <==> exclusive_allowed(old(self).state()),
            r is Ok ==> final(self).state() is Exclusive,
            r is Err ==> final(self).state() == old(self).state(),
    {
        match self.state {
            BorrowState::Unborrowed => {
                self.state = BorrowState::Exclusive;
                Ok(ExclusiveGuard { token: () })
            },
            _ => Err(BorrowConflict),
        }
    }

    /// Hands a shared guard back: one reader fewer, `Unborrowed` when it was
    /// the last.
    pub fn release_shared(&mut self, guard: SharedGuard)
        requires
            old(self).wf(),
            old(self).state() matches BorrowState::Shared { .. },
        ensures
            final(self).wf(),
            final(self).value() == old(self).value(),
            final(self).state() == after_release_shared(old(self).state()),
    {
        let _ = guard;
        match self.state {
            BorrowState::Shared { readers } => {
                if readers == 1 {
                    self.state = BorrowState::Unborrowed;
                } else {
                    self.state = BorrowState::Shared { readers: readers - 1 };
                }
            },
            _ => {},
        }
    }

    /// Hands the exclusive guard back: the cell is unborrowed again.
    pub fn release_exclusive(&mut self, guard: ExclusiveGuard)
        requires
            old(self).wf(),
            old(self).state() is Exclusive,
        ensures
            final(self).wf(),
            final(self).value() == old(self).value(),
            final(self).state() is Unborrowed,
    {
        let _ = guard;
        self.state = BorrowState::Unborrowed;
    }

    /// Reads the value under a shared borrow.
    pub fn read(&self, guard: &SharedGuard) -> (r: &T)
        requires
            self.state() matches BorrowState::Shared { .. },
        ensures
            *r == self.value(),
    {
        let _ = guard;
        &self.value
    }

    /// Reads the value under the exclusive borrow.
    pub fn read_exclusive(&self, guard: &ExclusiveGuard) -> (r: &T)
        requires
            self.state() is Exclusive,
        ensures
            *r == self.value(),
    {
        let _ = guard;
        &self.value
    }

    /// Replaces the value under the exclusive borrow and returns the old one.
    pub fn replace(&mut self, guard: &ExclusiveGuard, value: T) -> (out: T)
        requires
            old(self).state() is Exclusive,
        ensures
            out == old(self).value(),
            final(self).value() == value,
            final(self).state() == old(self).state(),
    {
        let _ = guard;
        let mut value = value;
        core::mem::swap(&mut self.value, &mut value);
        value
    }

    /// Writes the value under the exclusive borrow.
    pub fn write(&mut self, guard: &ExclusiveGuard, value: T)
        requires
            old(self).state() is Exclusive,
        ensures
            final(self).value() == value,
            final(self).state() == old(self).state(),
    {
        let _ = self.replace(guard, value);
    }

    /// How many shared readers are outstanding; zero in the other modes.
    pub fn reader_count(&self) -> (n: u64)
        ensures
            self.state() matches BorrowState::Shared { readers } ==> n == readers,
            !(self.state() matches BorrowState::Shared { .. }) ==> n == 0,
    {
        match self.state {
            BorrowState::Shared { readers } => readers,
            _ => 0,
        }
    }

    /// Whether an exclusive borrow is outstanding.
    pub fn is_exclusive(&self) -> (b: bool)
        ensures
            b == (self.state() is Exclusive),
    {
        match self.state {
            BorrowState::Exclusive => true,
            _ => false,
        }
    }
}

/// Law: while a shared borrow is held, an exclusive request fails with
/// `BorrowConflict`; once the last shared guard is released, the very same
/// request is granted.
pub proof fn lemma_shared_blocks_exclusive(st: BorrowState)
    requires
        st == (BorrowState::Shared { readers: 1u64 }),
    ensures
        !exclusive_allowed(st),
        exclusive_allowed(after_release_shared(st)),
{
}

/// Law: shared borrows coexist — while no exclusive borrow is outstanding a
/// shared request is always granted, and granting one leaves the cell in a
/// state where the next shared request is granted as well.
pub proof fn lemma_shared_always_granted(st: BorrowState)
    requires
        !(st is Exclusive),
    ensures
        shared_allowed(st),
        shared_allowed(after_shared(st)),
{
}

} // verus!
