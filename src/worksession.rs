//! Work sessions: clock-in/clock-out intervals.  At most one is active;
//! starting one closes any other.
use vstd::prelude::*;

verus! {

/// One clock-in interval.  Times are seconds since the Unix epoch.
#[derive(Debug, Clone, Copy, PartialEq, Eq, Structural)]
pub struct WorkSession {
    pub id: i64,
    pub started_at: i64,
    pub ended_at: Option<i64>,
    pub is_active: bool,
}

/// The session closed at `now` if it was active; otherwise unchanged.
pub open spec fn closed_if_active(w: WorkSession, now: i64) -> WorkSession {
    if w.is_active {
        WorkSession { is_active: false, ended_at: Some(now), ..w }
    } else {
        w
    }
}

pub open spec fn close_all(s: Seq<WorkSession>, now: i64) -> Seq<WorkSession> {
    s.map_values(|w: WorkSession| closed_if_active(w, now))
}

/// How many sessions are active.
pub open spec fn active_count(s: Seq<WorkSession>) -> nat
    decreases s.len(),
{
    if s.len() == 0 {
        0
    } else {
        active_count(s.drop_last()) + if s.last().is_active {
            1nat
        } else {
            0nat
        }
    }
}

/// No two sessions are active at once.
pub open spec fn at_most_one_active(s: Seq<WorkSession>) -> bool {
    forall|i: int, j: int|
        0 <= i < s.len() && 0 <= j < s.len() && (#[trigger] s[i]).is_active && (
        #[trigger] s[j]).is_active ==> i == j
}

proof fn lemma_active_count(s: Seq<WorkSession>)
    requires
        at_most_one_active(s),
    ensures
        active_count(s) <= 1,
        active_count(s) == 0 <==> forall|i: int| 0 <= i < s.len() ==> !(#[trigger] s[i]).is_active,
    decreases s.len(),
{
    if s.len() > 0 {
        let r = s.drop_last();
        assert(at_most_one_active(r)) by {
            assert forall|i: int, j: int|
                0 <= i < r.len() && 0 <= j < r.len() && (#[trigger] r[i]).is_active && (
                #[trigger] r[j]).is_active implies i == j by {
                assert(r[i] == s[i]);
                assert(r[j] == s[j]);
            }
        }
        lemma_active_count(r);
        if s.last().is_active {
            assert forall|i: int| 0 <= i < r.len() implies !(#[trigger] r[i]).is_active by {
                assert(r[i] == s[i]);
                assert(s[s.len() - 1] == s.last());
            }
        }
        assert forall|i: int| 0 <= i < r.len() implies #[trigger] r[i] == s[i] by {}
        if !s.last().is_active && active_count(s) == 0 {
            assert forall|i: int| 0 <= i < s.len() implies !(#[trigger] s[i]).is_active by {
                if i < r.len() {
                    assert(r[i] == s[i]);
                }
            }
        }
    }
}

/// The work sessions of this device, oldest first.
pub struct WorkSessionStore {
    sessions: Vec<WorkSession>,
    next_id: i64,
}

impl WorkSessionStore {
    pub closed spec fn sessions(&self) -> Seq<WorkSession> {
        self.sessions@
    }

    pub closed spec fn next_id(&self) -> i64 {
        self.next_id
    }

    pub open spec fn wf(&self) -> bool {
        &&& at_most_one_active(self.sessions())
        &&& forall|i: int| 0 <= i < self.sessions().len() ==> (#[trigger] self.sessions()[i]).id < self.next_id()
        &&& forall|i: int|
            0 <= i < self.sessions().len() ==> ((#[trigger] self.sessions()[i]).is_active <==> self.sessions()[i].ended_at is None)
    }

    pub fn new() -> (r: Self)
        ensures
            r.wf(),
            r.sessions() == Seq::<WorkSession>::empty(),
            r.next_id() == 1,
    {
        WorkSessionStore { sessions: Vec::new(), next_id: 1 }
    }

    /// Closes every active session at `now`; returns how many were closed.
    pub fn end_session(&mut self, now: i64) -> (r: usize)
        requires
            old(self).wf(),
        ensures
            final(self).wf(),
            final(self).sessions() == close_all(old(self).sessions(), now),
            final(self).next_id() == old(self).next_id(),
            r == active_count(old(self).sessions()),
            r <= 1,
    {
        let ghost s = self.sessions@;
        proof {
            lemma_active_count(s);
        }
        let n = self.sessions.len();
        let mut out: Vec<WorkSession> = Vec::new();
        let mut closed: usize = 0;
        let mut i: usize = 0;
        while i < n
            invariant
                n == s.len(),
                self.sessions@ == s,
                0 <= i <= n,
                out@ == close_all(s.take(i as int), now),
                closed == active_count(s.take(i as int)),
                active_count(s) <= 1,
                closed <= i,
            decreases n - i,
        {
            let w = self.sessions[i];
            proof {
                let t = s.take(i as int + 1);
                assert(t.drop_last() =~= s.take(i as int));
                assert(t.last() == w);
                assert(close_all(t, now) =~= close_all(s.take(i as int), now).push(
                    closed_if_active(w, now),
                ));
            }
            if w.is_active {
                out.push(WorkSession { is_active: false, ended_at: Some(now), ..w });
                closed = closed + 1;
            } else {
                out.push(w);
            }
            i = i + 1;
        }
        proof {
            assert(s.take(n as int) =~= s);
        }
        self.sessions = out;
        proof {
            assert forall|i: int| 0 <= i < self.sessions().len() implies !(
            #[trigger] self.sessions()[i]).is_active by {
                assert(self.sessions()[i] == closed_if_active(s[i], now));
            }
            assert forall|i: int| 0 <= i < self.sessions().len() implies (
            #[trigger] self.sessions()[i]).id < self.next_id() by {
                assert(self.sessions()[i] == closed_if_active(s[i], now));
            }
            assert forall|i: int| 0 <= i < self.sessions().len() implies ((
            #[trigger] self.sessions()[i]).is_active <==> self.sessions()[i].ended_at is None) by {
                assert(self.sessions()[i] == closed_if_active(s[i], now));
            }
        }
        closed
    }

    /// Same as `end_session`: clears any session left active.
    pub fn clear_all_active_sessions(&mut self, now: i64) -> (r: usize)
        requires
            old(self).wf(),
        ensures
            final(self).wf(),
            final(self).sessions() == close_all(old(self).sessions(), now),
            final(self).next_id() == old(self).next_id(),
            r == active_count(old(self).sessions()),
    {
        self.end_session(now)
    }

    /// Clocks in at `now`: any active session is closed at `now`, and a new
    /// active session starts.  Returns its id; `None` only when ids are
    /// exhausted (then nothing changes).
    pub fn start_session(&mut self, now: i64) -> (r: Option<i64>)
        requires
            old(self).wf(),
        ensures
            final(self).wf(),
            old(self).next_id() < i64::MAX ==> {
                &&& r == Some(old(self).next_id())
                &&& final(self).sessions() == close_all(old(self).sessions(), now).push(
                    WorkSession {
                        id: old(self).next_id(),
                        started_at: now,
                        ended_at: None,
                        is_active: true,
                    },
                )
                &&& final(self).next_id() == old(self).next_id() + 1
            },
            old(self).next_id() == i64::MAX ==> r is None && final(self).sessions() == old(
                self,
            ).sessions(),
    {
        if self.next_id == i64::MAX {
            return None;
        }
        self.end_session(now);
        let id = self.next_id;
        let ghost before = self.sessions@;
        self.sessions.push(WorkSession { id, started_at: now, ended_at: None, is_active: true });
        self.next_id = id + 1;
        proof {
            assert forall|i: int| 0 <= i < before.len() implies !(#[trigger] before[i]).is_active by {
                assert(before[i] == closed_if_active(old(self).sessions()[i], now));
            }
            assert forall|i: int, j: int|
                0 <= i < self.sessions().len() && 0 <= j < self.sessions().len() && (
                #[trigger] self.sessions()[i]).is_active && (#[trigger] self.sessions()[j]).is_active implies i
                == j by {
                if i < before.len() {
                    assert(self.sessions()[i] == before[i]);
                }
                if j < before.len() {
                    assert(self.sessions()[j] == before[j]);
                }
            }
            assert forall|i: int| 0 <= i < self.sessions().len() implies (
            #[trigger] self.sessions()[i]).id < self.next_id() by {
                if i < before.len() {
                    assert(self.sessions()[i] == before[i]);
                }
            }
            assert forall|i: int| 0 <= i < self.sessions().len() implies ((
            #[trigger] self.sessions()[i]).is_active <==> self.sessions()[i].ended_at is None) by {
                if i < before.len() {
                    assert(self.sessions()[i] == before[i]);
                }
            }
        }
        Some(id)
    }

    /// The active session, if any.
    pub fn get_current_session(&self) -> (r: Option<WorkSession>)
        requires
            self.wf(),
        ensures
            match r {
                Some(w) => w.is_active && exists|i: int|
                    0 <= i < self.sessions().len() && self.sessions()[i] == w,
                None => forall|i: int|
                    0 <= i < self.sessions().len() ==> !(#[trigger] self.sessions()[i]).is_active,
            },
    {
        let n = self.sessions.len();
        let mut i: usize = 0;
        while i < n
            invariant
                n == self.sessions().len(),
                0 <= i <= n,
                forall|k: int| 0 <= k < i ==> !(#[trigger] self.sessions()[k]).is_active,
            decreases n - i,
        {
            if self.sessions[i].is_active {
                return Some(self.sessions[i]);
            }
            i = i + 1;
        }
        None
    }

    /// Clocked in: a session is active.
    pub fn is_session_active(&self) -> (r: bool)
        requires
            self.wf(),
        ensures
            r == exists|i: int| 0 <= i < self.sessions().len() && (#[trigger] self.sessions()[i]).is_active,
    {
        match self.get_current_session() {
            Some(_) => true,
            None => false,
        }
    }

    pub fn get_current_session_id(&self) -> (r: Option<i64>)
        requires
            self.wf(),
        ensures
            match r {
                Some(id) => exists|i: int|
                    0 <= i < self.sessions().len() && (#[trigger] self.sessions()[i]).is_active
                        && self.sessions()[i].id == id,
                None => forall|i: int|
                    0 <= i < self.sessions().len() ==> !(#[trigger] self.sessions()[i]).is_active,
            },
    {
        match self.get_current_session() {
            Some(w) => Some(w.id),
            None => None,
        }
    }

    /// When the active session started; `now` when none is active.
    pub fn get_session_start_time(&self, now: i64) -> (r: i64)
        requires
            self.wf(),
        ensures
            (exists|i: int| 0 <= i < self.sessions().len() && (#[trigger] self.sessions()[i]).is_active
                && self.sessions()[i].started_at == r) || (r == now && forall|i: int|
                0 <= i < self.sessions().len() ==> !(#[trigger] self.sessions()[i]).is_active),
    {
        match self.get_current_session() {
            Some(w) => w.started_at,
            None => now,
        }
    }
}

/// However sessions were started and ended, at most one is active.
pub proof fn lemma_at_most_one_work_session(store: &WorkSessionStore)
    requires
        store.wf(),
    ensures
        active_count(store.sessions()) <= 1,
{
    lemma_active_count(store.sessions());
}

} // verus!
