//! The durable delivery outbox: undelivered events and heartbeats, each with
//! a retry budget.  An entry is eligible for delivery while it is unprocessed
//! and under its retry limit; once processed, or out of retries, it is never
//! handed out again.
use vstd::prelude::*;

use crate::lifecycle::LoopStep;

verus! {

/// Failed deliveries an entry may take before it is dropped from drains.
pub const DEFAULT_MAX_RETRIES: u32 = 3;

/// The largest batch one drain pass hands out.
pub const DRAIN_BATCH_LIMIT: usize = 10;

/// One outbox entry.  `timestamp` is in seconds since the Unix epoch.
pub struct QueuedItem<T> {
    pub id: u64,
    pub payload: T,
    pub timestamp: i64,
    pub processed: bool,
    pub retry_count: u32,
    pub max_retries: u32,
}

pub open spec fn eligible<T>(e: QueuedItem<T>) -> bool {
    !e.processed && e.retry_count < e.max_retries
}

/// The ids of the eligible entries, in storage (oldest-first) order.
pub open spec fn eligible_ids<T>(s: Seq<QueuedItem<T>>) -> Seq<u64>
    decreases s.len(),
{
    if s.len() == 0 {
        Seq::empty()
    } else if eligible(s.last()) {
        eligible_ids(s.drop_last()).push(s.last().id)
    } else {
        eligible_ids(s.drop_last())
    }
}

/// What one drain pass hands out: the oldest eligible entries, at most `limit`.
pub open spec fn drain_spec<T>(s: Seq<QueuedItem<T>>, limit: usize) -> Seq<u64> {
    if eligible_ids(s).len() <= limit {
        eligible_ids(s)
    } else {
        eligible_ids(s).take(limit as int)
    }
}

/// Entries are stored in the order they were queued, with increasing ids.
pub open spec fn ids_ascending<T>(s: Seq<QueuedItem<T>>, next_id: u64) -> bool {
    &&& forall|i: int, j: int| 0 <= i < j < s.len() ==> #[trigger] s[i].id < #[trigger] s[j].id
    &&& forall|i: int| 0 <= i < s.len() ==> #[trigger] s[i].id < next_id
}

/// `new` keeps every entry of `old` in place, with the same id and limit, a
/// retry count that has not gone down, and a processed flag not cleared.
pub open spec fn keeps_history<T>(old: Seq<QueuedItem<T>>, new: Seq<QueuedItem<T>>) -> bool {
    &&& old.len() <= new.len()
    &&& forall|i: int|
        0 <= i < old.len() ==> {
            &&& (#[trigger] new[i]).id == old[i].id
            &&& new[i].max_retries == old[i].max_retries
            &&& new[i].retry_count >= old[i].retry_count
            &&& (old[i].processed ==> new[i].processed)
        }
}

/// The entry of `s` with id `id` after one failed delivery.
pub open spec fn failed_once<T>(e: QueuedItem<T>) -> QueuedItem<T> {
    QueuedItem {
        retry_count: if e.retry_count < u32::MAX {
            (e.retry_count + 1) as u32
        } else {
            e.retry_count
        },
        ..e
    }
}

pub open spec fn marked_processed<T>(e: QueuedItem<T>) -> QueuedItem<T> {
    QueuedItem { processed: true, ..e }
}


proof fn lemma_eligible_ids_source<T>(s: Seq<QueuedItem<T>>, x: u64)
    requires
        eligible_ids(s).contains(x),
    ensures
        exists|i: int| 0 <= i < s.len() && (#[trigger] s[i]).id == x && eligible(s[i]),
    decreases s.len(),
{
    let rest = s.drop_last();
    if eligible(s.last()) && s.last().id == x {
        assert(s[s.len() - 1] == s.last());
    } else {
        if eligible(s.last()) {
            let k = choose|k: int| 0 <= k < eligible_ids(s).len() && eligible_ids(s)[k] == x;
            assert(eligible_ids(rest)[k] == x);
        }
        assert(eligible_ids(rest).contains(x));
        lemma_eligible_ids_source(rest, x);
        let i = choose|i: int| 0 <= i < rest.len() && (#[trigger] rest[i]).id == x && eligible(rest[i]);
        assert(s[i] == rest[i]);
    }
}

/// Keeping history is transitive: what holds over each step holds over a run.
pub proof fn lemma_keeps_history_trans<T>(
    a: Seq<QueuedItem<T>>,
    b: Seq<QueuedItem<T>>,
    c: Seq<QueuedItem<T>>,
)
    requires
        keeps_history(a, b),
        keeps_history(b, c),
    ensures
        keeps_history(a, c),
{
    assert forall|i: int| 0 <= i < a.len() implies {
        &&& (#[trigger] c[i]).id == a[i].id
        &&& c[i].max_retries == a[i].max_retries
        &&& c[i].retry_count >= a[i].retry_count
        &&& (a[i].processed ==> c[i].processed)
    } by {
        assert(b[i].id == a[i].id);
        assert(c[i].id == b[i].id);
    }
}

/// An entry that was processed, or whose retry count had reached its limit,
/// in some earlier state is absent from every drain of any later state: the
/// outbox's operations only keep history, so it stays out for good.
pub proof fn lemma_spent_entry_never_drained<T>(
    earlier: Seq<QueuedItem<T>>,
    later: Seq<QueuedItem<T>>,
    next_id: u64,
    i: int,
    limit: usize,
)
    requires
        ids_ascending(later, next_id),
        keeps_history(earlier, later),
        0 <= i < earlier.len(),
        earlier[i].processed || earlier[i].retry_count >= earlier[i].max_retries,
    ensures
        !drain_spec(later, limit).contains(earlier[i].id),
{
    let x = earlier[i].id;
    assert(later[i].id == x);
    assert(!eligible(later[i]));
    if eligible_ids(later).contains(x) {
        lemma_eligible_ids_source(later, x);
        let j = choose|j: int| 0 <= j < later.len() && (#[trigger] later[j]).id == x && eligible(later[j]);
        if j < i {
            assert(later[j].id < later[i].id);
        } else if j > i {
            assert(later[i].id < later[j].id);
        }
    }
    if drain_spec(later, limit).contains(x) && eligible_ids(later).len() > limit {
        let k = choose|k: int| 0 <= k < drain_spec(later, limit).len() && drain_spec(later, limit)[k] == x;
        assert(eligible_ids(later)[k] == x);
    }
}


/// Delivery attempts an entry may still take: none once processed or out of
/// retries.
pub open spec fn entry_budget<T>(e: QueuedItem<T>) -> nat {
    if eligible(e) {
        (e.max_retries - e.retry_count) as nat
    } else {
        0
    }
}

/// Delivery attempts the whole outbox may still take.
pub open spec fn budget<T>(s: Seq<QueuedItem<T>>) -> nat
    decreases s.len(),
{
    if s.len() == 0 {
        0
    } else {
        budget(s.drop_last()) + entry_budget(s.last())
    }
}

proof fn lemma_budget_update<T>(s: Seq<QueuedItem<T>>, i: int, x: QueuedItem<T>)
    requires
        0 <= i < s.len(),
    ensures
        budget(s.update(i, x)) + entry_budget(s[i]) == budget(s) + entry_budget(x),
    decreases s.len(),
{
    let u = s.update(i, x);
    if i == s.len() - 1 {
        assert(u.drop_last() =~= s.drop_last());
    } else {
        assert(u.drop_last() =~= s.drop_last().update(i, x));
        lemma_budget_update(s.drop_last(), i, x);
    }
}

/// One attempt at an entry a drain handed out (it is settled when
/// delivered, and spends a retry otherwise) leaves the outbox with strictly
/// less budget; so repeated drain passes end with nothing left to hand out.
pub proof fn lemma_attempt_spends_budget<T>(
    before: Seq<QueuedItem<T>>,
    after: Seq<QueuedItem<T>>,
    next_id: u64,
    id: u64,
    delivered: bool,
    limit: usize,
)
    requires
        ids_ascending(before, next_id),
        drain_spec(before, limit).contains(id),
        after.len() == before.len(),
        forall|i: int|
            0 <= i < before.len() ==> #[trigger] after[i] == if before[i].id != id {
                before[i]
            } else if delivered {
                marked_processed(before[i])
            } else {
                failed_once(before[i])
            },
    ensures
        budget(after) < budget(before),
{
    assert(eligible_ids(before).contains(id)) by {
        if eligible_ids(before).len() > limit {
            let k = choose|k: int| 0 <= k < drain_spec(before, limit).len() && drain_spec(before, limit)[k] == id;
            assert(eligible_ids(before)[k] == id);
        }
    }
    lemma_eligible_ids_source(before, id);
    let i = choose|i: int| 0 <= i < before.len() && (#[trigger] before[i]).id == id && eligible(before[i]);
    let x = after[i];
    assert forall|j: int| 0 <= j < before.len() && j != i implies #[trigger] before[j].id != id by {
        if j < i {
            assert(before[j].id < before[i].id);
        } else {
            assert(before[i].id < before[j].id);
        }
    }
    assert(after =~= before.update(i, x));
    lemma_budget_update(before, i, x);
    assert(entry_budget(x) < entry_budget(before[i]));
}

/// A failed delivery never lowers a retry count, and an entry whose count
/// reaches its limit leaves the drains.
pub proof fn lemma_mark_failed_monotone<T>(e: QueuedItem<T>)
    ensures
        failed_once(e).retry_count >= e.retry_count,
        failed_once(e).max_retries == e.max_retries,
        failed_once(e).retry_count >= failed_once(e).max_retries ==> !eligible(failed_once(e)),
{
}

pub struct Outbox<T> {
    items: Vec<QueuedItem<T>>,
    next_id: u64,
}

impl<T> View for Outbox<T> {
    type V = Seq<QueuedItem<T>>;

    closed spec fn view(&self) -> Seq<QueuedItem<T>> {
        self.items@
    }
}

impl<T> Outbox<T> {
    /// The id the next queued entry receives.
    pub closed spec fn next_id(&self) -> u64 {
        self.next_id
    }

    pub closed spec fn wf(&self) -> bool {
        ids_ascending(self.items@, self.next_id)
    }

    /// An empty outbox.
    pub fn new() -> (r: Self)
        ensures
            r.wf(),
            r@ == Seq::<QueuedItem<T>>::empty(),
            r.next_id() == 1,
    {
        Outbox { items: Vec::new(), next_id: 1 }
    }

    /// Number of entries ever queued and still stored.
    pub fn len(&self) -> (r: usize)
        ensures
            r == self@.len(),
    {
        self.items.len()
    }

    /// The entry with id `id`, if any.
    pub fn get(&self, id: u64) -> (r: Option<&QueuedItem<T>>)
        requires
            self.wf(),
        ensures
            match r {
                Some(e) => exists|i: int| 0 <= i < self@.len() && self@[i] == *e && e.id == id,
                None => forall|i: int| 0 <= i < self@.len() ==> (#[trigger] self@[i]).id != id,
            },
    {
        match self.position(id) {
            Some(i) => Some(&self.items[i]),
            None => None,
        }
    }

    fn position(&self, id: u64) -> (r: Option<usize>)
        requires
            self.wf(),
        ensures
            match r {
                Some(i) => i < self@.len() && self@[i as int].id == id,
                None => forall|i: int| 0 <= i < self@.len() ==> (#[trigger] self@[i]).id != id,
            },
    {
        let n = self.items.len();
        let mut i: usize = 0;
        while i < n
            invariant
                n == self@.len(),
                0 <= i <= n,
                forall|k: int| 0 <= k < i ==> (#[trigger] self@[k]).id != id,
            decreases n - i,
        {
            if self.items[i].id == id {
                return Some(i);
            }
            i = i + 1;
        }
        None
    }

    /// Queues a payload stamped with `timestamp`, unprocessed and with the
    /// default retry budget.  Ids are never reused; `None` only when they are
    /// exhausted.
    pub fn enqueue(&mut self, payload: T, timestamp: i64) -> (r: Option<u64>)
        requires
            old(self).wf(),
        ensures
            final(self).wf(),
            keeps_history(old(self)@, final(self)@),
            old(self).next_id() < u64::MAX ==> {
                &&& r == Some(old(self).next_id())
                &&& final(self)@ == old(self)@.push(
                    QueuedItem {
                        id: old(self).next_id(),
                        payload,
                        timestamp,
                        processed: false,
                        retry_count: 0,
                        max_retries: DEFAULT_MAX_RETRIES,
                    },
                )
                &&& final(self).next_id() == old(self).next_id() + 1
            },
            old(self).next_id() == u64::MAX ==> r is None && final(self)@ == old(self)@
                && final(self).next_id() == old(self).next_id(),
    {
        if self.next_id == u64::MAX {
            return None;
        }
        let id = self.next_id;
        self.items.push(
            QueuedItem {
                id,
                payload,
                timestamp,
                processed: false,
                retry_count: 0,
                max_retries: DEFAULT_MAX_RETRIES,
            },
        );
        self.next_id = id + 1;
        Some(id)
    }

    /// The ids of the oldest eligible entries, at most `limit` of them.
    pub fn drain_candidates(&self, limit: usize) -> (r: Vec<u64>)
        ensures
            r@ == drain_spec(self@, limit),
    {
        let n = self.items.len();
        let mut out: Vec<u64> = Vec::new();
        let mut i: usize = 0;
        while i < n
            invariant
                n == self@.len(),
                0 <= i <= n,
                out@ == eligible_ids(self@.take(i as int)),
            decreases n - i,
        {
            let e = &self.items[i];
            proof {
                let t = self@.take(i as int + 1);
                assert(t.drop_last() =~= self@.take(i as int));
                assert(t.last() == *e);
            }
            if !e.processed && e.retry_count < e.max_retries {
                out.push(e.id);
            }
            i = i + 1;
        }
        proof {
            assert(self@.take(n as int) =~= self@);
        }
        out.truncate(limit);
        proof {
            if eligible_ids(self@).len() > limit {
                assert(out@ =~= eligible_ids(self@).take(limit as int));
            }
        }
        out
    }

    /// The entries one pass of the sync processor attempts: none unless
    /// services may run and the connectivity probe succeeded, else the oldest
    /// eligible ones, at most one batch.
    pub fn plan_drain(&self, step: LoopStep, online: bool) -> (r: Vec<u64>)
        ensures
            step == LoopStep::Proceed && online ==> r@ == drain_spec(self@, DRAIN_BATCH_LIMIT),
            !(step == LoopStep::Proceed && online) ==> r@.len() == 0,
    {
        if step == LoopStep::Proceed && online {
            self.drain_candidates(DRAIN_BATCH_LIMIT)
        } else {
            Vec::new()
        }
    }

    /// Marks the entry `id` delivered; it leaves every later drain.  Marking
    /// again, or an unknown id, changes nothing more.
    pub fn mark_processed(&mut self, id: u64)
        requires
            old(self).wf(),
        ensures
            final(self).wf(),
            final(self).next_id() == old(self).next_id(),
            keeps_history(old(self)@, final(self)@),
            final(self)@.len() == old(self)@.len(),
            forall|i: int|
                0 <= i < old(self)@.len() ==> #[trigger] final(self)@[i] == if old(self)@[i].id
                    == id {
                    marked_processed(old(self)@[i])
                } else {
                    old(self)@[i]
                },
    {
        match self.position(id) {
            Some(i) => {
                let mut e = self.items.remove(i);
                e.processed = true;
                self.items.insert(i, e);
                proof {
                    assert forall|k: int| 0 <= k < old(self)@.len() && k != i implies old(
                        self,
                    )@[k].id != id by {
                        if k < i {
                            assert(old(self)@[k].id < old(self)@[i as int].id);
                        } else {
                            assert(old(self)@[i as int].id < old(self)@[k].id);
                        }
                    }
                }
            },
            None => {},
        }
    }

    /// Counts one failed delivery of the entry `id`: its retry count goes up
    /// by one (it stays at the largest count it can hold).
    pub fn mark_failed(&mut self, id: u64)
        requires
            old(self).wf(),
        ensures
            final(self).wf(),
            final(self).next_id() == old(self).next_id(),
            keeps_history(old(self)@, final(self)@),
            final(self)@.len() == old(self)@.len(),
            forall|i: int|
                0 <= i < old(self)@.len() ==> #[trigger] final(self)@[i] == if old(self)@[i].id
                    == id {
                    failed_once(old(self)@[i])
                } else {
                    old(self)@[i]
                },
    {
        match self.position(id) {
            Some(i) => {
                let mut e = self.items.remove(i);
                if e.retry_count < u32::MAX {
                    e.retry_count = e.retry_count + 1;
                }
                self.items.insert(i, e);
                proof {
                    assert forall|k: int| 0 <= k < old(self)@.len() && k != i implies old(
                        self,
                    )@[k].id != id by {
                        if k < i {
                            assert(old(self)@[k].id < old(self)@[i as int].id);
                        } else {
                            assert(old(self)@[i as int].id < old(self)@[k].id);
                        }
                    }
                }
            },
            None => {},
        }
    }

    /// Settles one live delivery attempt of a new payload: delivered, nothing
    /// is kept; failed, the payload is queued.
    pub fn deliver_or_queue(&mut self, payload: T, delivered: bool, timestamp: i64) -> (r: Option<
        u64,
    >)
        requires
            old(self).wf(),
        ensures
            final(self).wf(),
            keeps_history(old(self)@, final(self)@),
            delivered ==> r is None && final(self)@ == old(self)@ && final(self).next_id()
                == old(self).next_id(),
            !delivered && old(self).next_id() < u64::MAX ==> {
                &&& r == Some(old(self).next_id())
                &&& final(self)@ == old(self)@.push(
                    QueuedItem {
                        id: old(self).next_id(),
                        payload,
                        timestamp,
                        processed: false,
                        retry_count: 0,
                        max_retries: DEFAULT_MAX_RETRIES,
                    },
                )
            },
    {
        if delivered {
            None
        } else {
            self.enqueue(payload, timestamp)
        }
    }

    /// Settles one redelivery attempt of a queued entry: delivered, it is
    /// marked processed; failed, its retry count goes up.
    pub fn record_attempt(&mut self, id: u64, delivered: bool)
        requires
            old(self).wf(),
        ensures
            final(self).wf(),
            final(self).next_id() == old(self).next_id(),
            keeps_history(old(self)@, final(self)@),
            final(self)@.len() == old(self)@.len(),
            forall|i: int|
                0 <= i < old(self)@.len() ==> #[trigger] final(self)@[i] == if old(self)@[i].id
                    != id {
                    old(self)@[i]
                } else if delivered {
                    marked_processed(old(self)@[i])
                } else {
                    failed_once(old(self)@[i])
                },
    {
        if delivered {
            self.mark_processed(id);
        } else {
            self.mark_failed(id);
        }
    }
}

} // verus!
