//! Allocation records and counted handles.
//!
//! A [`Region`] owns a sequence of allocation records.  Each record holds a
//! payload slot, a strong count and a weak count.  A [`StrongHandle`] owns one
//! unit of a record's strong count; a [`WeakHandle`] owns one unit of its weak
//! count.  The payload of a record is present exactly while its strong count
//! is positive ([`wf`]); it is destroyed the moment the strong count goes from
//! one to zero, and the record itself is reclaimed once both counts are zero.
//!
//! Handles are plain move-only values: a handle can be duplicated only through
//! [`Region::clone_strong`] or [`Region::clone_weak`], which pay for the copy
//! by raising the matching count, and is spent by the operation that drops it.
//! Every operation is one atomic step on the region, so an inspect-then-update
//! pair such as [`Region::upgrade`] cannot be interleaved with another step.

use vstd::prelude::*;

verus! {

/// Mathematical model of one allocation record: the payload slot and the two
/// counts, with no bound on the counts.
pub struct RecordModel<T> {
    /// The payload, present exactly while `strong > 0` in a well-formed region.
    pub payload: Option<T>,
    /// How many strong (owning) handles the record has.
    pub strong: nat,
    /// How many weak (observing) handles the record has.
    pub weak: nat,
}

struct Record<T> {
    payload: Option<T>,
    strong: u64,
    weak: u64,
}

/// An arena of allocation records.  A region models one heap: handles carry
/// the index of their record and every count change is a region operation.
pub struct Region<T> {
    records: Vec<Record<T>>,
}

/// An owning handle: one unit of the strong count of the record at `idx()`.
pub struct StrongHandle {
    index: usize,
}

/// A non-owning observer: one unit of the weak count of the record at `idx()`.
pub struct WeakHandle {
    index: usize,
}

impl StrongHandle {
    /// The index of the record this handle owns a strong unit of.
    pub closed spec fn idx(&self) -> int {
        self.index as int
    }

    /// The record index, for diagnostics.
    pub fn index(&self) -> (i: usize)
        ensures
            i as int == self.idx(),
    {
        self.index
    }
}

impl WeakHandle {
    /// The index of the record this handle observes.
    pub closed spec fn idx(&self) -> int {
        self.index as int
    }

    /// The record index, for diagnostics.
    pub fn index(&self) -> (i: usize)
        ensures
            i as int == self.idx(),
    {
        self.index
    }
}

impl<T> View for Region<T> {
    type V = Seq<RecordModel<T>>;

    closed spec fn view(&self) -> Seq<RecordModel<T>> {
        self.records@.map_values(
            |r: Record<T>|
                RecordModel { payload: r.payload, strong: r.strong as nat, weak: r.weak as nat },
        )
    }
}

/// A region is well-formed when every record's payload is present exactly
/// while its strong count is positive.
pub open spec fn wf<T>(s: Seq<RecordModel<T>>) -> bool {
    forall|i: int|
        0 <= i < s.len() ==> ((#[trigger] s[i]).payload is Some <==> s[i].strong > 0)
}

/// The handle index `i` names a record whose strong count is positive.
pub open spec fn valid_strong<T>(s: Seq<RecordModel<T>>, i: int) -> bool {
    0 <= i < s.len() && s[i].strong > 0
}

/// The handle index `i` names a record whose weak count is positive.
pub open spec fn valid_weak<T>(s: Seq<RecordModel<T>>, i: int) -> bool {
    0 <= i < s.len() && s[i].weak > 0
}

/// Allocating appends a fresh record with one strong owner and no observers.
pub open spec fn create_model<T>(s: Seq<RecordModel<T>>, value: T) -> Seq<RecordModel<T>> {
    s.push(RecordModel { payload: Some(value), strong: 1, weak: 0 })
}

/// Cloning a strong handle raises the record's strong count by one.
pub open spec fn clone_strong_model<T>(s: Seq<RecordModel<T>>, i: int) -> Seq<RecordModel<T>> {
    s.update(
        i,
        RecordModel { payload: s[i].payload, strong: (s[i].strong + 1) as nat, weak: s[i].weak },
    )
}

/// Dropping a strong handle lowers the strong count by one and, on the
/// transition to zero, destroys the payload immediately.
pub open spec fn drop_strong_model<T>(s: Seq<RecordModel<T>>, i: int) -> Seq<RecordModel<T>> {
    if s[i].strong == 1 {
        s.update(i, RecordModel { payload: None, strong: 0, weak: s[i].weak })
    } else {
        s.update(
            i,
            RecordModel {
                payload: s[i].payload,
                strong: (s[i].strong - 1) as nat,
                weak: s[i].weak,
            },
        )
    }
}

/// Creating one more weak observer raises the weak count by one.
pub open spec fn add_weak_model<T>(s: Seq<RecordModel<T>>, i: int) -> Seq<RecordModel<T>> {
    s.update(
        i,
        RecordModel { payload: s[i].payload, strong: s[i].strong, weak: (s[i].weak + 1) as nat },
    )
}

/// Dropping a weak handle lowers the weak count by one.  When the strong
/// count is already zero and the weak count reaches zero too, the record is
/// reclaimed: both counts zero, payload long gone.
pub open spec fn drop_weak_model<T>(s: Seq<RecordModel<T>>, i: int) -> Seq<RecordModel<T>> {
    s.update(
        i,
        RecordModel { payload: s[i].payload, strong: s[i].strong, weak: (s[i].weak - 1) as nat },
    )
}

/// `n` clones of the handle of record `i`, one after the other.
pub open spec fn clone_strong_n_model<T>(s: Seq<RecordModel<T>>, i: int, n: nat) -> Seq<
    RecordModel<T>,
>
    decreases n,
{
    if n == 0 {
        s
    } else {
        clone_strong_model(clone_strong_n_model(s, i, (n - 1) as nat), i)
    }
}

/// `n` strong drops on record `i`, one after the other.
pub open spec fn drop_strong_n_model<T>(s: Seq<RecordModel<T>>, i: int, n: nat) -> Seq<
    RecordModel<T>,
>
    decreases n,
{
    if n == 0 {
        s
    } else {
        drop_strong_n_model(drop_strong_model(s, i), i, (n - 1) as nat)
    }
}

/// `n` weak drops on record `i`, one after the other.
pub open spec fn drop_weak_n_model<T>(s: Seq<RecordModel<T>>, i: int, n: nat) -> Seq<
    RecordModel<T>,
>
    decreases n,
{
    if n == 0 {
        s
    } else {
        drop_weak_n_model(drop_weak_model(s, i), i, (n - 1) as nat)
    }
}

/// One strong drop exactly undoes one clone, as long as the record had an
/// owner to begin with.
pub proof fn lemma_drop_undoes_clone<T>(s: Seq<RecordModel<T>>, i: int)
    requires
        0 <= i < s.len(),
        s[i].strong >= 1,
    ensures
        drop_strong_model(clone_strong_model(s, i), i) == s,
{
    assert(drop_strong_model(clone_strong_model(s, i), i) =~= s);
}

/// Iterated cloning only raises the strong count of record `i`, by one per
/// clone; nothing else in the region moves.
pub proof fn lemma_clone_n_count<T>(s: Seq<RecordModel<T>>, i: int, n: nat)
    requires
        0 <= i < s.len(),
    ensures
        clone_strong_n_model(s, i, n).len() == s.len(),
        clone_strong_n_model(s, i, n)[i].strong == s[i].strong + n,
        clone_strong_n_model(s, i, n)[i].payload == s[i].payload,
        clone_strong_n_model(s, i, n)[i].weak == s[i].weak,
    decreases n,
{
    if n > 0 {
        lemma_clone_n_count(s, i, (n - 1) as nat);
    }
}

/// Law: create one strong handle, clone it `n` times, then drop `n` of the
/// `n + 1` handles: the region is exactly as it started, so the payload is
/// still alive and reachable through the remaining handle.
pub proof fn lemma_clone_n_then_drop_n<T>(s: Seq<RecordModel<T>>, i: int, n: nat)
    requires
        valid_strong(s, i),
    ensures
        drop_strong_n_model(clone_strong_n_model(s, i, n), i, n) == s,
        drop_strong_n_model(clone_strong_n_model(s, i, n), i, n)[i].payload == s[i].payload,
    decreases n,
{
    if n > 0 {
        lemma_clone_n_count(s, i, (n - 1) as nat);
        lemma_drop_undoes_clone(clone_strong_n_model(s, i, (n - 1) as nat), i);
        lemma_clone_n_then_drop_n(s, i, (n - 1) as nat);
    }
}

/// Iterated weak drops only lower the weak count of record `i`, by one per
/// drop; the strong count and the payload slot stay as they were.
pub proof fn lemma_drop_weak_n<T>(s: Seq<RecordModel<T>>, i: int, n: nat)
    requires
        0 <= i < s.len(),
        n <= s[i].weak,
    ensures
        drop_weak_n_model(s, i, n).len() == s.len(),
        drop_weak_n_model(s, i, n)[i].weak == s[i].weak - n,
        drop_weak_n_model(s, i, n)[i].strong == s[i].strong,
        drop_weak_n_model(s, i, n)[i].payload == s[i].payload,
    decreases n,
{
    if n > 0 {
        lemma_drop_weak_n(drop_weak_model(s, i), i, (n - 1) as nat);
    }
}

/// Law: dropping the last strong handle while `k` weak observers remain
/// destroys the payload immediately; the strong count is zero at every later
/// stage, so every `upgrade` from then on reports the payload absent; and
/// only after all `k` weak handles are dropped too is the record reclaimed,
/// with both counts zero.
pub proof fn lemma_last_strong_drop<T>(s: Seq<RecordModel<T>>, i: int, k: nat)
    requires
        valid_strong(s, i),
        s[i].strong == 1,
        s[i].weak == k,
    ensures
        drop_strong_model(s, i)[i].payload is None,
        forall|j: nat|
            j <= k ==> (#[trigger] drop_weak_n_model(drop_strong_model(s, i), i, j))[i].strong
                == 0,
        drop_weak_n_model(drop_strong_model(s, i), i, k)[i].weak == 0,
        drop_weak_n_model(drop_strong_model(s, i), i, k)[i].payload is None,
{
    let s1 = drop_strong_model(s, i);
    assert forall|j: nat| j <= k implies (#[trigger] drop_weak_n_model(s1, i, j))[i].strong
        == 0 by {
        lemma_drop_weak_n(s1, i, j);
    }
    lemma_drop_weak_n(s1, i, k);
}

/// Every region operation keeps the region well-formed: the payload of each
/// record is present exactly while its strong count is positive.
pub proof fn lemma_ops_preserve_wf<T>(s: Seq<RecordModel<T>>, value: T, i: int)
    requires
        wf(s),
    ensures
        wf(create_model(s, value)),
        valid_strong(s, i) ==> wf(clone_strong_model(s, i)),
        valid_strong(s, i) ==> wf(drop_strong_model(s, i)),
        0 <= i < s.len() ==> wf(add_weak_model(s, i)),
        0 <= i < s.len() ==> wf(drop_weak_model(s, i)),
{
}

impl<T> Region<T> {
    /// A fresh region with no records.
    pub fn new() -> (r: Region<T>)
        ensures
            r@ == Seq::<RecordModel<T>>::empty(),
    {
        let r = Region { records: Vec::new() };
        proof {
            assert(r@ =~= Seq::<RecordModel<T>>::empty());
        }
        r
    }

    /// How many records the region has allocated so far, reclaimed ones
    /// included.
    pub fn record_count(&self) -> (n: usize)
        ensures
            n == self@.len(),
    {
        self.records.len()
    }

    /// Allocates a fresh record owning `value`, with strong count one and
    /// weak count zero, and returns its first strong handle.
    pub fn create(&mut self, value: T) -> (h: StrongHandle)
        ensures
            final(self)@ == create_model(old(self)@, value),
            h.idx() == old(self)@.len(),
    {
        let index = self.records.len();
        self.records.push(Record { payload: Some(value), strong: 1, weak: 0 });
        proof {
            assert(self@ =~= create_model(old(self)@, value));
        }
        StrongHandle { index }
    }

    /// Clones a strong handle: raises the record's strong count by one and
    /// returns an aliasing handle.  Never fails.
    pub fn clone_strong(&mut self, h: &StrongHandle) -> (h2: StrongHandle)
        requires
            valid_strong(old(self)@, h.idx()),
            old(self)@[h.idx()].strong < u64::MAX,
        ensures
            final(self)@ == clone_strong_model(old(self)@, h.idx()),
            h2.idx() == h.idx(),
    {
        let index = h.index;
        let r = vstd::std_specs::vec::vec_index_mut(&mut self.records, index);
        r.strong = r.strong + 1;
        proof {
            assert(self@ =~= clone_strong_model(old(self)@, h.idx()));
        }
        StrongHandle { index }
    }

    /// Drops a strong handle: lowers the strong count by one.  On the
    /// transition to zero the payload is destroyed at once — the region
    /// releases it to the caller for disposal — while the record itself
    /// survives as long as weak observers remain.
    pub fn drop_strong(&mut self, h: StrongHandle) -> (out: Option<T>)
        requires
            valid_strong(old(self)@, h.idx()),
        ensures
            final(self)@ == drop_strong_model(old(self)@, h.idx()),
            old(self)@[h.idx()].strong == 1 ==> out == old(self)@[h.idx()].payload,
            old(self)@[h.idx()].strong != 1 ==> out is None,
    {
        let index = h.index;
        let r = vstd::std_specs::vec::vec_index_mut(&mut self.records, index);
        if r.strong == 1 {
            r.strong = 0;
            let out = r.payload.take();
            proof {
                assert(self@ =~= drop_strong_model(old(self)@, h.idx()));
            }
            out
        } else {
            r.strong = r.strong - 1;
            proof {
                assert(self@ =~= drop_strong_model(old(self)@, h.idx()));
            }
            None
        }
    }

    /// Creates a weak observer of the record of `h`: raises the weak count by
    /// one and returns a weak handle sharing the record.
    pub fn downgrade(&mut self, h: &StrongHandle) -> (w: WeakHandle)
        requires
            valid_strong(old(self)@, h.idx()),
            old(self)@[h.idx()].weak < u64::MAX,
        ensures
            final(self)@ == add_weak_model(old(self)@, h.idx()),
            w.idx() == h.idx(),
    {
        let index = h.index;
        let r = vstd::std_specs::vec::vec_index_mut(&mut self.records, index);
        r.weak = r.weak + 1;
        proof {
            assert(self@ =~= add_weak_model(old(self)@, h.idx()));
        }
        WeakHandle { index }
    }

    /// Clones a weak handle: raises the weak count by one.
    pub fn clone_weak(&mut self, w: &WeakHandle) -> (w2: WeakHandle)
        requires
            valid_weak(old(self)@, w.idx()),
            old(self)@[w.idx()].weak < u64::MAX,
        ensures
            final(self)@ == add_weak_model(old(self)@, w.idx()),
            w2.idx() == w.idx(),
    {
        let index = w.index;
        let r = vstd::std_specs::vec::vec_index_mut(&mut self.records, index);
        r.weak = r.weak + 1;
        proof {
            assert(self@ =~= add_weak_model(old(self)@, w.idx()));
        }
        WeakHandle { index }
    }

    /// Drops a weak handle: lowers the weak count by one.  It does not touch
    /// the payload; once the strong count is zero and the last weak observer
    /// is gone, the record is reclaimed.
    pub fn drop_weak(&mut self, w: WeakHandle)
        requires
            valid_weak(old(self)@, w.idx()),
        ensures
            final(self)@ == drop_weak_model(old(self)@, w.idx()),
    {
        let index = w.index;
        let r = vstd::std_specs::vec::vec_index_mut(&mut self.records, index);
        r.weak = r.weak - 1;
        proof {
            assert(self@ =~= drop_weak_model(old(self)@, w.idx()));
        }
    }

    /// Attempts to obtain a strong handle from a weak one.  Fails exactly
    /// when the payload is already gone (strong count zero); otherwise the
    /// check and the increment are one atomic step, so a payload that is
    /// mid-destruction can never be resurrected.
    pub fn upgrade(&mut self, w: &WeakHandle) -> (out: Option<StrongHandle>)
        requires
            valid_weak(old(self)@, w.idx()),
            old(self)@[w.idx()].strong < u64::MAX,
        ensures
            old(self)@[w.idx()].strong == 0 ==> out is None && final(self)@ == old(self)@,
            old(self)@[w.idx()].strong > 0 ==> (out matches Some(h) && h.idx() == w.idx())
                && final(self)@ == clone_strong_model(old(self)@, w.idx()),
    {
        let index = w.index;
        let r = vstd::std_specs::vec::vec_index_mut(&mut self.records, index);
        if r.strong == 0 {
            proof {
                assert(self@ =~= old(self)@);
            }
            None
        } else {
            r.strong = r.strong + 1;
            proof {
                assert(self@ =~= clone_strong_model(old(self)@, w.idx()));
            }
            Some(StrongHandle { index })
        }
    }

    /// The strong count of the record of `h`, for diagnostics.
    pub fn strong_count(&self, h: &StrongHandle) -> (n: u64)
        requires
            0 <= h.idx() < self@.len(),
        ensures
            n as nat == self@[h.idx()].strong,
    {
        self.records[h.index].strong
    }

    /// The weak count of the record of `h`, for diagnostics.
    pub fn weak_count(&self, h: &StrongHandle) -> (n: u64)
        requires
            0 <= h.idx() < self@.len(),
        ensures
            n as nat == self@[h.idx()].weak,
    {
        self.records[h.index].weak
    }

    /// Both counts of the record a weak handle observes: `(strong, weak)`.
    pub fn counts_of_weak(&self, w: &WeakHandle) -> (r: (u64, u64))
        requires
            0 <= w.idx() < self@.len(),
        ensures
            r.0 as nat == self@[w.idx()].strong,
            r.1 as nat == self@[w.idx()].weak,
    {
        let r = &self.records[w.index];
        (r.strong, r.weak)
    }

    /// Whether the record of a strong handle still has a positive strong
    /// count — true for every properly obtained, not yet spent handle.
    pub fn strong_live(&self, h: &StrongHandle) -> (b: bool)
        ensures
            b == valid_strong(self@, h.idx()),
    {
        h.index < self.records.len() && self.records[h.index].strong > 0
    }

    /// Whether the record of a weak handle still has a positive weak count.
    pub fn weak_live(&self, w: &WeakHandle) -> (b: bool)
        ensures
            b == valid_weak(self@, w.idx()),
    {
        w.index < self.records.len() && self.records[w.index].weak > 0
    }

    /// Whether the record at `index` has been reclaimed: no owners, no
    /// observers, payload long gone.
    pub fn reclaimed(&self, index: usize) -> (b: bool)
        requires
            index < self@.len(),
        ensures
            b == (self@[index as int].strong == 0 && self@[index as int].weak == 0),
    {
        let r = &self.records[index];
        r.strong == 0 && r.weak == 0
    }

    /// Shared access to the payload of a live record.
    pub fn get(&self, h: &StrongHandle) -> (r: &T)
        requires
            wf(self@),
            valid_strong(self@, h.idx()),
        ensures
            self@[h.idx()].payload == Some(*r),
    {
        self.records[h.index].payload.as_ref().unwrap()
    }

    /// Exclusive access to the payload of a live record.  Only the payload
    /// slot changes; both counts and every other record stay as they were.
    pub fn get_mut(&mut self, h: &StrongHandle) -> (r: &mut T)
        requires
            wf(old(self)@),
            valid_strong(old(self)@, h.idx()),
        ensures
            old(self)@[h.idx()].payload == Some(*r),
            final(self)@ =~= old(self)@.update(
                h.idx(),
                RecordModel {
                    payload: Some(*final(r)),
                    strong: old(self)@[h.idx()].strong,
                    weak: old(self)@[h.idx()].weak,
                },
            ),
    {
        let index = h.index;
        let rec = vstd::std_specs::vec::vec_index_mut(&mut self.records, index);
        rec.payload.as_mut().unwrap()
    }
}

} // verus!
