//! Cross-thread mutual exclusion over a value.
//!
//! A [`SyncMutableCell`] wraps a value behind a lock flag, a FIFO wait queue
//! of blocked acquirers, and a poison flag.  Every operation is one atomic
//! step on the cell; the data may be read or written only through the
//! [`LockGuard`] handed out while the lock is held, which is a move-only
//! value spent by the release that consumes it.  Blocking is the embedding
//! runtime's job: an acquirer that finds the lock taken is enqueued by
//! [`SyncMutableCell::lock_or_enqueue`], and each release wakes exactly one
//! waiter — the head of the queue — whose identity it returns, so waiters
//! make eventual progress in arrival order.
//!
//! A holder that fails mid-critical-section releases through
//! [`SyncMutableCell::release_after_failure`], which poisons the cell.  Later
//! acquirers are still granted access, but the guard carries the poison flag,
//! so each of them decides for itself whether to trust the contents.
//!
//! [`run_scheduled_increments`] is the module's law about lock-protected
//! counters: however an adversarial scheduler interleaves the workers, once
//! every worker has run often enough the counter holds exactly
//! `workers * increments`.

use crate::errors::WouldBlock;
use vstd::prelude::*;

verus! {

/// Evidence that the lock of one cell is held; spent by the release that
/// consumes it.  `poisoned()` tells whether a previous holder failed while
/// holding the lock.
pub struct LockGuard {
    poisoned: bool,
}

impl LockGuard {
    /// Whether the cell was poisoned when this guard was granted.
    pub closed spec fn spec_poisoned(&self) -> bool {
        self.poisoned
    }

    /// Whether a previous holder failed while holding the lock.
    pub fn poisoned(&self) -> (b: bool)
        ensures
            b == self.spec_poisoned(),
    {
        self.poisoned
    }
}

/// A value guarded by a lock, a FIFO wait queue and a poison flag.
pub struct SyncMutableCell<T> {
    value: T,
    locked: bool,
    poisoned: bool,
    waiters: Vec<u64>,
}

impl<T> SyncMutableCell<T> {
    /// The guarded value, for specifications.
    pub closed spec fn value(&self) -> T {
        self.value
    }

    /// Whether the lock is currently held, for specifications.
    pub closed spec fn locked(&self) -> bool {
        self.locked
    }

    /// Whether some holder failed while holding the lock, for specifications.
    pub closed spec fn poisoned(&self) -> bool {
        self.poisoned
    }

    /// The queue of blocked acquirers, oldest first, for specifications.
    pub closed spec fn waiters(&self) -> Seq<u64> {
        self.waiters@
    }

    /// Wraps `value`; the lock is free, nobody waits, nothing is poisoned.
    pub fn new(value: T) -> (c: SyncMutableCell<T>)
        ensures
            c.value() == value,
            !c.locked(),
            !c.poisoned(),
            c.waiters() == Seq::<u64>::empty(),
    {
        let c = SyncMutableCell { value, locked: false, poisoned: false, waiters: Vec::new() };
        proof {
            assert(c.waiters() =~= Seq::<u64>::empty());
        }
        c
    }

    /// Tries to take the lock without blocking.  Succeeds exactly while the
    /// lock is free; the guard carries the poison flag, so a poisoned cell
    /// still grants access but surfaces the failure to the new holder.
    pub fn try_lock(&mut self) -> (r: Result<LockGuard, WouldBlock>)
        ensures
            r is Ok <==> !old(self).locked(),
            r matches Ok(g) ==> g.spec_poisoned() == old(self).poisoned(),
            r is Ok ==> final(self).locked(),
            r is Err ==> final(self).locked() == old(self).locked(),
            final(self).value() == old(self).value(),
            final(self).poisoned() == old(self).poisoned(),
            final(self).waiters() == old(self).waiters(),
    {
        if self.locked {
            Err(WouldBlock)
        } else {
            self.locked = true;
            Ok(LockGuard { poisoned: self.poisoned })
        }
    }

    /// One acquisition step for the caller identified by `tid`: take the lock
    /// if it is free, otherwise join the back of the wait queue and report
    /// `WouldBlock`.  The embedding runtime parks the caller until a release
    /// names it as the woken waiter.
    pub fn lock_or_enqueue(&mut self, tid: u64) -> (r: Result<LockGuard, WouldBlock>)
        ensures
            r is Ok <==> !old(self).locked(),
            r matches Ok(g) ==> g.spec_poisoned() == old(self).poisoned(),
            r is Ok ==> final(self).locked() && final(self).waiters() == old(self).waiters(),
            r is Err ==> final(self).locked() && final(self).waiters() == old(self).waiters().push(tid),
            final(self).value() == old(self).value(),
            final(self).poisoned() == old(self).poisoned(),
    {
        if self.locked {
            self.waiters.push(tid);
            Err(WouldBlock)
        } else {
            self.locked = true;
            Ok(LockGuard { poisoned: self.poisoned })
        }
    }

    /// Releases the lock and wakes exactly one blocked waiter — the one that
    /// has waited longest — returning its identity; `None` when nobody waits.
    pub fn release(&mut self, guard: LockGuard) -> (woken: Option<u64>)
        requires
            old(self).locked(),
        ensures
            !final(self).locked(),
            final(self).value() == old(self).value(),
            final(self).poisoned() == old(self).poisoned(),
            old(self).waiters().len() == 0 ==> woken is None && final(self).waiters() == old(self).waiters(),
            old(self).waiters().len() > 0 ==> woken == Some(old(self).waiters()[0]) && final(self).waiters() == old(self).waiters().subrange(1, old(self).waiters().len() as int),
    {
        let _ = guard;
        self.locked = false;
        if self.waiters.len() > 0 {
            let woken = self.waiters.remove(0);
            proof {
                assert(self.waiters() =~= old(self).waiters().subrange(
                    1,
                    old(self).waiters().len() as int,
                ));
            }
            Some(woken)
        } else {
            None
        }
    }

    /// Releases the lock on behalf of a holder that failed mid-critical
    /// section: the cell is poisoned from now on, and one waiter is woken as
    /// on a normal release.
    pub fn release_after_failure(&mut self, guard: LockGuard) -> (woken: Option<u64>)
        requires
            old(self).locked(),
        ensures
            !final(self).locked(),
            final(self).value() == old(self).value(),
            final(self).poisoned(),
            old(self).waiters().len() == 0 ==> woken is None && final(self).waiters() == old(self).waiters(),
            old(self).waiters().len() > 0 ==> woken == Some(old(self).waiters()[0]) && final(self).waiters() == old(self).waiters().subrange(1, old(self).waiters().len() as int),
    {
        self.poisoned = true;
        self.release(guard)
    }

    /// Reads the value under the lock.
    pub fn read(&self, guard: &LockGuard) -> (r: &T)
        requires
            self.locked(),
        ensures
            *r == self.value(),
    {
        let _ = guard;
        &self.value
    }

    /// Writes the value under the lock.
    pub fn write(&mut self, guard: &LockGuard, value: T)
        requires
            old(self).locked(),
        ensures
            final(self).value() == value,
            final(self).locked() == old(self).locked(),
            final(self).poisoned() == old(self).poisoned(),
            final(self).waiters() == old(self).waiters(),
    {
        let _ = guard;
        let mut value = value;
        core::mem::swap(&mut self.value, &mut value);
    }

    /// Whether the lock is currently held.
    pub fn is_locked(&self) -> (b: bool)
        ensures
            b == self.locked(),
    {
        self.locked
    }

    /// Whether some holder failed while holding the lock.
    pub fn is_poisoned(&self) -> (b: bool)
        ensures
            b == self.poisoned(),
    {
        self.poisoned
    }

    /// How many acquirers are blocked on the lock.
    pub fn waiting(&self) -> (n: usize)
        ensures
            n == self.waiters().len(),
    {
        self.waiters.len()
    }
}

/// How often worker `t` appears in the schedule `s`.
pub open spec fn occurrences(s: Seq<usize>, t: int) -> nat
    decreases s.len(),
{
    if s.len() == 0 {
        0
    } else {
        occurrences(s.drop_last(), t) + (if s.last() as int == t {
            1nat
        } else {
            0nat
        })
    }
}

/// `occ` capped at `per`: how many of `occ` scheduler steps a worker with
/// `per` increments of work actually spends incrementing.
pub open spec fn capped(occ: nat, per: nat) -> nat {
    if occ >= per {
        per
    } else {
        occ
    }
}

/// The sum of a sequence of counters.
pub open spec fn sum_u64(s: Seq<u64>) -> int
    decreases s.len(),
{
    if s.len() == 0 {
        0
    } else {
        sum_u64(s.drop_last()) + s.last()
    }
}

/// Appending one step to a schedule raises by one the occurrence count of
/// the worker it names and leaves every other count unchanged.
proof fn lemma_occurrences_push(s: Seq<usize>, x: usize, t: int)
    ensures
        occurrences(s.push(x), t) == occurrences(s, t) + (if x as int == t {
            1int
        } else {
            0int
        }),
{
    assert(s.push(x).drop_last() =~= s);
}

/// The sum of a sequence of counters is at least any single counter.
proof fn lemma_sum_bounds(s: Seq<u64>, i: int)
    requires
        0 <= i < s.len(),
    ensures
        sum_u64(s) >= s[i],
        sum_u64(s) >= 0,
    decreases s.len(),
{
    if i == s.len() - 1 {
        if s.len() > 1 {
            lemma_sum_bounds(s.drop_last(), 0);
        }
    } else {
        lemma_sum_bounds(s.drop_last(), i);
    }
}

/// Updating one counter moves the sum by the difference.
proof fn lemma_sum_update(s: Seq<u64>, i: int, v: u64)
    requires
        0 <= i < s.len(),
    ensures
        sum_u64(s.update(i, v)) == sum_u64(s) - s[i] + v,
    decreases s.len(),
{
    if i == s.len() - 1 {
        assert(s.update(i, v).drop_last() =~= s.drop_last());
    } else {
        assert(s.update(i, v).drop_last() =~= s.drop_last().update(i, v));
        lemma_sum_update(s.drop_last(), i, v);
    }
}

/// Law: `workers` workers each owe `per_worker` increments of one counter in
/// a fresh `SyncMutableCell`, and an arbitrary schedule says which worker
/// runs at each step.  A scheduled worker with work left takes the lock,
/// increments the counter and releases the lock; a finished or out-of-range
/// worker does nothing.  The run reports `Some(total)` exactly when the
/// schedule ran every worker at least `per_worker` times — and then, however
/// the steps were interleaved, `total` is exactly `workers * per_worker`.
pub fn run_scheduled_increments(workers: usize, per_worker: u64, schedule: &Vec<usize>) -> (r:
    Option<u64>)
    requires
        workers as int * per_worker as int <= u64::MAX as int,
    ensures
        r matches Some(total) ==> total as int == workers as int * per_worker as int,
        r is Some <==> (forall|t: int|
            0 <= t < workers ==> occurrences(schedule@, t) >= per_worker),
{
    let mut cell: SyncMutableCell<u64> = SyncMutableCell::new(0);
    let mut remaining: Vec<u64> = Vec::new();
    let mut i: usize = 0;
    while i < workers
        invariant
            i <= workers,
            remaining.len() == i,
            forall|t: int| 0 <= t < i ==> #[trigger] remaining@[t] == per_worker,
        decreases workers - i,
    {
        remaining.push(per_worker);
        i = i + 1;
    }
    proof {
        lemma_sum_constant(remaining@, per_worker);
        assert(schedule@.take(0) =~= Seq::<usize>::empty());
    }
    let mut k: usize = 0;
    while k < schedule.len()
        invariant
            workers as int * per_worker as int <= u64::MAX as int,
            k <= schedule.len(),
            remaining.len() == workers,
            !cell.locked(),
            forall|t: int| 0 <= t < workers ==> #[trigger] remaining@[t] <= per_worker,
            forall|t: int|
                0 <= t < workers ==> #[trigger] remaining@[t] == per_worker - capped(
                    occurrences(schedule@.take(k as int), t),
                    per_worker as nat,
                ),
            cell.value() as int + sum_u64(remaining@) == workers as int * per_worker as int,
        decreases schedule.len() - k,
    {
        let t = schedule[k];
        proof {
            assert(schedule@.take(k + 1) =~= schedule@.take(k as int).push(schedule@[k as int]));
        }
        if t < workers && remaining[t] > 0 {
            proof {
                lemma_sum_bounds(remaining@, t as int);
            }
            let guard = match cell.try_lock() {
                Ok(guard) => guard,
                Err(_) => vstd::pervasive::unreached(),
            };
            let v = *cell.read(&guard);
            cell.write(&guard, v + 1);
            let _ = cell.release(guard);
            let left = remaining[t];
            proof {
                lemma_sum_update(remaining@, t as int, (left - 1) as u64);
            }
            remaining[t] = left - 1;
            proof {
                let prefix = schedule@.take(k as int);
                assert forall|u: int| 0 <= u < workers implies #[trigger] remaining@[u]
                    == per_worker - capped(
                    occurrences(schedule@.take(k + 1), u),
                    per_worker as nat,
                ) by {
                    lemma_occurrences_push(prefix, t, u);
                }
            }
        } else {
            proof {
                let prefix = schedule@.take(k as int);
                assert forall|u: int| 0 <= u < workers implies #[trigger] remaining@[u]
                    == per_worker - capped(
                    occurrences(schedule@.take(k + 1), u),
                    per_worker as nat,
                ) by {
                    lemma_occurrences_push(prefix, t, u);
                }
            }
        }
        k = k + 1;
    }
    proof {
        assert(schedule@.take(schedule.len() as int) =~= schedule@);
    }
    let mut all_done = true;
    let mut j: usize = 0;
    while j < workers
        invariant
            remaining.len() == workers,
            j <= workers,
            all_done <==> (forall|t: int| 0 <= t < j ==> #[trigger] remaining@[t] == 0),
        decreases workers - j,
    {
        if remaining[j] > 0 {
            all_done = false;
        }
        j = j + 1;
    }
    if all_done {
        proof {
            lemma_sum_all_zero(remaining@);
            assert forall|t: int| 0 <= t < workers implies occurrences(schedule@, t)
                >= per_worker by {
                assert(remaining@[t] == 0);
            }
        }
        let guard = match cell.try_lock() {
            Ok(guard) => guard,
            Err(_) => vstd::pervasive::unreached(),
        };
        let v = *cell.read(&guard);
        let _ = cell.release(guard);
        Some(v)
    } else {
        proof {
            let t = choose|t: int|
                0 <= t < workers && #[trigger] remaining@[t] != 0;
            assert(capped(occurrences(schedule@, t), per_worker as nat) < per_worker);
        }
        None
    }
}

/// A sequence of equal counters sums to length times the counter.
proof fn lemma_sum_constant(s: Seq<u64>, v: u64)
    requires
        forall|t: int| 0 <= t < s.len() ==> #[trigger] s[t] == v,
    ensures
        sum_u64(s) == s.len() * v,
    decreases s.len(),
{
    if s.len() > 0 {
        lemma_sum_constant(s.drop_last(), v);
        assert((s.len() - 1) * v + v == s.len() * v) by (nonlinear_arith);
    }
}

/// A sequence of all-zero counters sums to zero.
proof fn lemma_sum_all_zero(s: Seq<u64>)
    requires
        forall|t: int| 0 <= t < s.len() ==> #[trigger] s[t] == 0,
    ensures
        sum_u64(s) == 0,
    decreases s.len(),
{
    if s.len() > 0 {
        lemma_sum_all_zero(s.drop_last());
    }
}

} // verus!
