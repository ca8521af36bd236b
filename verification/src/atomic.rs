//! Cross-thread variants of the counted handles.
//!
//! An [`AtomicRegion`] obeys exactly the record semantics of
//! [`Region`](crate::region::Region) — same model, same contracts — but its
//! handles are the distinct types [`AtomicStrongHandle`] and
//! [`AtomicWeakHandle`].  Keeping the two families apart is the point: a
//! plain handle can never be mistaken for a cross-thread one, so code that
//! shares a region between threads is forced onto this variant at the
//! interface, not by convention.  In the model every operation is already a
//! single atomic step — in particular [`AtomicRegion::upgrade`] inspects and
//! raises the strong count in one step, so a payload mid-destruction cannot
//! be resurrected; an embedding runtime must keep each operation that
//! atomic, by performing the count changes as atomic read-modify-write
//! updates (or under one lock), when it lets threads share the region.
//! Combine an atomic region with
//! [`SyncMutableCell`](crate::sync_cell::SyncMutableCell) payloads for
//! shared mutable state; the single-threaded
//! [`MutableCell`](crate::cell::MutableCell) stays with the single-threaded
//! handles.

use crate::region::RecordModel;
use crate::region::Region;
use crate::region::StrongHandle;
use crate::region::WeakHandle;
use crate::region::add_weak_model;
use crate::region::clone_strong_model;
use crate::region::create_model;
use crate::region::drop_strong_model;
use crate::region::drop_weak_model;
use crate::region::valid_strong;
use crate::region::valid_weak;
use crate::region::wf;
use vstd::prelude::*;

verus! {

/// An arena of allocation records shared across threads.
pub struct AtomicRegion<T> {
    inner: Region<T>,
}

/// An owning cross-thread handle; the atomic counterpart of
/// [`StrongHandle`].
pub struct AtomicStrongHandle {
    inner: StrongHandle,
}

/// A non-owning cross-thread observer; the atomic counterpart of
/// [`WeakHandle`].
pub struct AtomicWeakHandle {
    inner: WeakHandle,
}

impl AtomicStrongHandle {
    /// The index of the record this handle owns a strong unit of.
    pub closed spec fn idx(&self) -> int {
        self.inner.idx()
    }

    /// The record index, for diagnostics.
    pub fn index(&self) -> (i: usize)
        ensures
            i as int == self.idx(),
    {
        self.inner.index()
    }
}

impl AtomicWeakHandle {
    /// The index of the record this handle observes.
    pub closed spec fn idx(&self) -> int {
        self.inner.idx()
    }

    /// The record index, for diagnostics.
    pub fn index(&self) -> (i: usize)
        ensures
            i as int == self.idx(),
    {
        self.inner.index()
    }
}

impl<T> View for AtomicRegion<T> {
    type V = Seq<RecordModel<T>>;

    closed spec fn view(&self) -> Seq<RecordModel<T>> {
        self.inner@
    }
}

impl<T> AtomicRegion<T> {
    /// A fresh region with no records.
    pub fn new() -> (r: AtomicRegion<T>)
        ensures
            r@ == Seq::<RecordModel<T>>::empty(),
    {
        AtomicRegion { inner: Region::new() }
    }

    /// How many records the region has allocated so far.
    pub fn record_count(&self) -> (n: usize)
        ensures
            n == self@.len(),
    {
        self.inner.record_count()
    }

    /// Allocates a fresh record owning `value`; see
    /// [`Region::create`](crate::region::Region::create).
    pub fn create(&mut self, value: T) -> (h: AtomicStrongHandle)
        ensures
            final(self)@ == create_model(old(self)@, value),
            h.idx() == old(self)@.len(),
    {
        AtomicStrongHandle { inner: self.inner.create(value) }
    }

    /// Clones a strong handle atomically; the count update is one
    /// read-modify-write step.
    pub fn clone_strong(&mut self, h: &AtomicStrongHandle) -> (h2: AtomicStrongHandle)
        requires
            valid_strong(old(self)@, h.idx()),
            old(self)@[h.idx()].strong < u64::MAX,
        ensures
            final(self)@ == clone_strong_model(old(self)@, h.idx()),
            h2.idx() == h.idx(),
    {
        AtomicStrongHandle { inner: self.inner.clone_strong(&h.inner) }
    }

    /// Drops a strong handle atomically; on the transition to zero the
    /// payload is destroyed at once and handed back for disposal.
    pub fn drop_strong(&mut self, h: AtomicStrongHandle) -> (out: Option<T>)
        requires
            valid_strong(old(self)@, h.idx()),
        ensures
            final(self)@ == drop_strong_model(old(self)@, h.idx()),
            old(self)@[h.idx()].strong == 1 ==> out == old(self)@[h.idx()].payload,
            old(self)@[h.idx()].strong != 1 ==> out is None,
    {
        self.inner.drop_strong(h.inner)
    }

    /// Creates a weak observer of the record of `h`.
    pub fn downgrade(&mut self, h: &AtomicStrongHandle) -> (w: AtomicWeakHandle)
        requires
            valid_strong(old(self)@, h.idx()),
            old(self)@[h.idx()].weak < u64::MAX,
        ensures
            final(self)@ == add_weak_model(old(self)@, h.idx()),
            w.idx() == h.idx(),
    {
        AtomicWeakHandle { inner: self.inner.downgrade(&h.inner) }
    }

    /// Clones a weak handle.
    pub fn clone_weak(&mut self, w: &AtomicWeakHandle) -> (w2: AtomicWeakHandle)
        requires
            valid_weak(old(self)@, w.idx()),
            old(self)@[w.idx()].weak < u64::MAX,
        ensures
            final(self)@ == add_weak_model(old(self)@, w.idx()),
            w2.idx() == w.idx(),
    {
        AtomicWeakHandle { inner: self.inner.clone_weak(&w.inner) }
    }

    /// Drops a weak handle.
    pub fn drop_weak(&mut self, w: AtomicWeakHandle)
        requires
            valid_weak(old(self)@, w.idx()),
        ensures
            final(self)@ == drop_weak_model(old(self)@, w.idx()),
    {
        self.inner.drop_weak(w.inner)
    }

    /// Attempts to obtain a strong handle from a weak one.  The inspection
    /// of the strong count and its increment are one atomic step, which is
    /// what makes the operation safe against a concurrent final drop: a
    /// payload that is mid-destruction can never be resurrected.
    pub fn upgrade(&mut self, w: &AtomicWeakHandle) -> (out: Option<AtomicStrongHandle>)
        requires
            valid_weak(old(self)@, w.idx()),
            old(self)@[w.idx()].strong < u64::MAX,
        ensures
            old(self)@[w.idx()].strong == 0 ==> out is None && final(self)@ == old(self)@,
            old(self)@[w.idx()].strong > 0 ==> (out matches Some(h) && h.idx() == w.idx())
                && final(self)@ == clone_strong_model(old(self)@, w.idx()),
    {
        match self.inner.upgrade(&w.inner) {
            Some(h) => Some(AtomicStrongHandle { inner: h }),
            None => None,
        }
    }

    /// The strong count of the record of `h`, for diagnostics.
    pub fn strong_count(&self, h: &AtomicStrongHandle) -> (n: u64)
        requires
            0 <= h.idx() < self@.len(),
        ensures
            n as nat == self@[h.idx()].strong,
    {
        self.inner.strong_count(&h.inner)
    }

    /// The weak count of the record of `h`, for diagnostics.
    pub fn weak_count(&self, h: &AtomicStrongHandle) -> (n: u64)
        requires
            0 <= h.idx() < self@.len(),
        ensures
            n as nat == self@[h.idx()].weak,
    {
        self.inner.weak_count(&h.inner)
    }

    /// Both counts of the record a weak handle observes: `(strong, weak)`.
    pub fn counts_of_weak(&self, w: &AtomicWeakHandle) -> (r: (u64, u64))
        requires
            0 <= w.idx() < self@.len(),
        ensures
            r.0 as nat == self@[w.idx()].strong,
            r.1 as nat == self@[w.idx()].weak,
    {
        self.inner.counts_of_weak(&w.inner)
    }

    /// Whether the record of a strong handle still has a positive strong
    /// count.
    pub fn strong_live(&self, h: &AtomicStrongHandle) -> (b: bool)
        ensures
            b == valid_strong(self@, h.idx()),
    {
        self.inner.strong_live(&h.inner)
    }

    /// Whether the record of a weak handle still has a positive weak count.
    pub fn weak_live(&self, w: &AtomicWeakHandle) -> (b: bool)
        ensures
            b == valid_weak(self@, w.idx()),
    {
        self.inner.weak_live(&w.inner)
    }

    /// Shared access to the payload of a live record.
    pub fn get(&self, h: &AtomicStrongHandle) -> (r: &T)
        requires
            wf(self@),
            valid_strong(self@, h.idx()),
        ensures
            self@[h.idx()].payload == Some(*r),
    {
        self.inner.get(&h.inner)
    }

    /// Exclusive access to the payload of a live record; only the payload
    /// slot changes.
    pub fn get_mut(&mut self, h: &AtomicStrongHandle) -> (r: &mut T)
        requires
            wf(old(self)@),
            valid_strong(old(self)@, h.idx()),
        ensures
            old(self)@[h.idx()].payload == Some(*r),
            final(self)@ =~= old(self)@.update(
                h.idx(),
                RecordModel {
                    payload: Some(*final(r)),
                    strong: old(self)@[h.idx()].strong,
                    weak: old(self)@[h.idx()].weak,
                },
            ),
    {
        self.inner.get_mut(&h.inner)
    }
}

} // verus!
