//! Foreground-application usage sessions.  At most one session is open at a
//! time; opening one closes the previous, and a closed session's duration is
//! its end time less its start time.
use vstd::prelude::*;

use crate::productivity::ProductivityCategory;

verus! {

/// The latest timestamp accepted, in seconds since the Unix epoch (the end of
/// the year 9999); the earliest is its negation.
pub const MAX_TIMESTAMP: i64 = 253402300799;

pub open spec fn valid_time(t: i64) -> bool {
    -MAX_TIMESTAMP <= t <= MAX_TIMESTAMP
}

/// Addition that stops at the bounds of `i64`.
pub open spec fn sat_add(a: i64, b: i64) -> i64 {
    if a + b > i64::MAX {
        i64::MAX
    } else if a + b < i64::MIN {
        i64::MIN
    } else {
        (a + b) as i64
    }
}

pub fn saturating_add_i64(a: i64, b: i64) -> (r: i64)
    ensures
        r == sat_add(a, b),
{
    if b > 0 && a > i64::MAX - b {
        i64::MAX
    } else if b < 0 && a < i64::MIN - b {
        i64::MIN
    } else {
        a + b
    }
}

/// One contiguous period of a single foreground application.  Times are in
/// seconds since the Unix epoch.
#[derive(Debug, Clone)]
pub struct AppUsageSession {
    pub id: Option<i64>,
    pub app_name: String,
    pub app_id: String,
    pub window_title: Option<String>,
    pub category: ProductivityCategory,
    pub start_time: i64,
    pub end_time: Option<i64>,
    pub duration_seconds: i64,
    pub is_idle: bool,
    pub is_active: bool,
}

/// An open session: active, with no end and no duration yet.
pub open spec fn is_open(s: AppUsageSession) -> bool {
    &&& s.is_active
    &&& s.end_time is None
    &&& s.duration_seconds == 0
    &&& valid_time(s.start_time)
}

/// A closed session: inactive, ended, and lasting exactly end less start.
pub open spec fn is_closed(s: AppUsageSession) -> bool {
    &&& !s.is_active
    &&& s.end_time is Some
    &&& valid_time(s.start_time)
    &&& valid_time(s.end_time->0)
    &&& s.duration_seconds == s.end_time->0 - s.start_time
}

/// The session `s` closed at `now`.
pub open spec fn closed_at(s: AppUsageSession, now: i64) -> AppUsageSession {
    AppUsageSession {
        end_time: Some(now),
        duration_seconds: (now - s.start_time) as i64,
        is_active: false,
        ..s
    }
}

/// Seconds accumulated per kind of closed session.
#[derive(Debug, Clone, Copy, PartialEq, Eq, Structural)]
pub struct UsageTotals {
    pub productive: i64,
    pub neutral: i64,
    pub unproductive: i64,
    pub idle: i64,
}

/// Totals after a closed session: idle time counts as idle whatever the
/// category; otherwise it counts under the session's category.
pub open spec fn totals_after(t: UsageTotals, s: AppUsageSession) -> UsageTotals {
    if s.is_idle {
        UsageTotals { idle: sat_add(t.idle, s.duration_seconds), ..t }
    } else {
        match s.category {
            ProductivityCategory::PRODUCTIVE => UsageTotals {
                productive: sat_add(t.productive, s.duration_seconds),
                ..t
            },
            ProductivityCategory::NEUTRAL => UsageTotals {
                neutral: sat_add(t.neutral, s.duration_seconds),
                ..t
            },
            ProductivityCategory::UNPRODUCTIVE => UsageTotals {
                unproductive: sat_add(t.unproductive, s.duration_seconds),
                ..t
            },
        }
    }
}


/// Time spent in one application, summed over its sessions.
#[derive(Debug, Clone)]
pub struct AppUsageSummary {
    pub app_name: String,
    pub app_id: String,
    pub total_time: i64,
    pub productive_time: i64,
    pub neutral_time: i64,
    pub unproductive_time: i64,
    pub idle_time: i64,
    pub session_count: i32,
}

pub open spec fn fresh_summary(app_name: String, app_id: String) -> AppUsageSummary {
    AppUsageSummary {
        app_name,
        app_id,
        total_time: 0,
        productive_time: 0,
        neutral_time: 0,
        unproductive_time: 0,
        idle_time: 0,
        session_count: 0,
    }
}

/// A summary after one more session of `duration` seconds: the total and the
/// count grow, and the time counts as idle or under its category.
pub open spec fn summary_added(
    s: AppUsageSummary,
    category: ProductivityCategory,
    duration: i64,
    is_idle: bool,
) -> AppUsageSummary {
    let base = AppUsageSummary {
        total_time: sat_add(s.total_time, duration),
        session_count: if s.session_count < i32::MAX {
            (s.session_count + 1) as i32
        } else {
            s.session_count
        },
        ..s
    };
    if is_idle {
        AppUsageSummary { idle_time: sat_add(s.idle_time, duration), ..base }
    } else {
        match category {
            ProductivityCategory::PRODUCTIVE => AppUsageSummary {
                productive_time: sat_add(s.productive_time, duration),
                ..base
            },
            ProductivityCategory::NEUTRAL => AppUsageSummary {
                neutral_time: sat_add(s.neutral_time, duration),
                ..base
            },
            ProductivityCategory::UNPRODUCTIVE => AppUsageSummary {
                unproductive_time: sat_add(s.unproductive_time, duration),
                ..base
            },
        }
    }
}

impl AppUsageSummary {
    pub fn new(app_name: String, app_id: String) -> (r: Self)
        ensures
            r == fresh_summary(app_name, app_id),
    {
        AppUsageSummary {
            app_name,
            app_id,
            total_time: 0,
            productive_time: 0,
            neutral_time: 0,
            unproductive_time: 0,
            idle_time: 0,
            session_count: 0,
        }
    }

    /// Counts one more session of `duration` seconds.
    pub fn add_time(&mut self, category: ProductivityCategory, duration: i64, is_idle: bool)
        ensures
            *final(self) == summary_added(*old(self), category, duration, is_idle),
    {
        self.total_time = saturating_add_i64(self.total_time, duration);
        if self.session_count < i32::MAX {
            self.session_count = self.session_count + 1;
        }
        if is_idle {
            self.idle_time = saturating_add_i64(self.idle_time, duration);
        } else {
            match category {
                ProductivityCategory::PRODUCTIVE => {
                    self.productive_time = saturating_add_i64(self.productive_time, duration);
                },
                ProductivityCategory::NEUTRAL => {
                    self.neutral_time = saturating_add_i64(self.neutral_time, duration);
                },
                ProductivityCategory::UNPRODUCTIVE => {
                    self.unproductive_time = saturating_add_i64(self.unproductive_time, duration);
                },
            }
        }
    }
}

/// Each application appears once in a summary list.
pub open spec fn names_distinct(l: Seq<AppUsageSummary>) -> bool {
    forall|i: int, j: int|
        0 <= i < j < l.len() ==> (#[trigger] l[i]).app_name@ != (#[trigger] l[j]).app_name@
}

/// A summary list after one more session of `duration` seconds: added to the
/// entry of its application, or to a new entry at the end.
pub open spec fn summary_add(l: Seq<AppUsageSummary>, s: AppUsageSession, duration: i64) -> Seq<
    AppUsageSummary,
> {
    if exists|j: int| 0 <= j < l.len() && (#[trigger] l[j]).app_name@ == s.app_name@ {
        let j = choose|j: int| 0 <= j < l.len() && (#[trigger] l[j]).app_name@ == s.app_name@;
        l.update(j, summary_added(l[j], s.category, duration, s.is_idle))
    } else {
        l.push(summary_added(fresh_summary(s.app_name, s.app_id), s.category, duration, s.is_idle))
    }
}

/// A summary list after the closed sessions `h`, in order.
pub open spec fn summary_history(l: Seq<AppUsageSummary>, h: Seq<AppUsageSession>) -> Seq<
    AppUsageSummary,
>
    decreases h.len(),
{
    if h.len() == 0 {
        l
    } else {
        summary_add(summary_history(l, h.drop_last()), h.last(), h.last().duration_seconds)
    }
}

fn add_to_summary(l: &mut Vec<AppUsageSummary>, s: &AppUsageSession, duration: i64)
    requires
        names_distinct(old(l)@),
    ensures
        names_distinct(final(l)@),
        final(l)@ == summary_add(old(l)@, *s, duration),
{
    let n = l.len();
    let mut j: usize = 0;
    while j < n && !crate::text::same_text(l[j].app_name.as_str(), s.app_name.as_str())
        invariant
            n == l@.len(),
            0 <= j <= n,
            forall|k: int| 0 <= k < j ==> (#[trigger] l@[k]).app_name@ != s.app_name@,
        decreases n - j,
    {
        j = j + 1;
    }
    if j < n {
        proof {
            let c = choose|c: int| 0 <= c < l@.len() && (#[trigger] l@[c]).app_name@ == s.app_name@;
            if c != j as int {
                if c < j {
                } else {
                    assert(l@[j as int].app_name@ != l@[c].app_name@);
                }
            }
        }
        let ghost before = l@;
        let mut e = l.remove(j);
        e.add_time(s.category, duration, s.is_idle);
        l.insert(j, e);
        proof {
            assert(l@ =~= before.update(j as int, summary_added(before[j as int], s.category, duration, s.is_idle)));
            assert forall|a: int, b: int| 0 <= a < b < l@.len() implies (#[trigger] l@[a]).app_name@
                != (#[trigger] l@[b]).app_name@ by {
                assert(l@[a].app_name == before[a].app_name);
                assert(l@[b].app_name == before[b].app_name);
            }
        }
    } else {
        let mut e = AppUsageSummary::new(s.app_name.clone(), s.app_id.clone());
        e.add_time(s.category, duration, s.is_idle);
        let ghost before = l@;
        l.push(e);
        proof {
            assert forall|a: int, b: int| 0 <= a < b < l@.len() implies (#[trigger] l@[a]).app_name@
                != (#[trigger] l@[b]).app_name@ by {
                if b == before.len() {
                    assert(l@[a] == before[a]);
                }
            }
        }
    }
}

/// Owns the open session and the closed ones of this run.
pub struct AppUsageTracker {
    current_session: Option<AppUsageSession>,
    session_history: Vec<AppUsageSession>,
    totals: UsageTotals,
}

/// How many of the sessions are open.
pub open spec fn open_count(s: Seq<AppUsageSession>) -> nat
    decreases s.len(),
{
    if s.len() == 0 {
        0
    } else {
        open_count(s.drop_last()) + if s.last().is_active {
            1nat
        } else {
            0nat
        }
    }
}

proof fn lemma_no_open(s: Seq<AppUsageSession>)
    requires
        forall|i: int| 0 <= i < s.len() ==> !(#[trigger] s[i]).is_active,
    ensures
        open_count(s) == 0,
    decreases s.len(),
{
    if s.len() > 0 {
        let r = s.drop_last();
        assert forall|i: int| 0 <= i < r.len() implies !(#[trigger] r[i]).is_active by {
            assert(r[i] == s[i]);
        }
        lemma_no_open(r);
    }
}

impl AppUsageTracker {
    pub closed spec fn current(&self) -> Option<AppUsageSession> {
        self.current_session
    }

    pub closed spec fn history(&self) -> Seq<AppUsageSession> {
        self.session_history@
    }

    pub closed spec fn totals(&self) -> UsageTotals {
        self.totals
    }

    /// Every session this tracker holds: the closed ones, then the open one.
    pub open spec fn all_sessions(&self) -> Seq<AppUsageSession> {
        match self.current() {
            Some(c) => self.history().push(c),
            None => self.history(),
        }
    }

    /// The open session, if any, is open; every other is closed.
    pub open spec fn wf(&self) -> bool {
        &&& (self.current() matches Some(c) ==> is_open(c))
        &&& forall|i: int| 0 <= i < self.history().len() ==> is_closed(#[trigger] self.history()[i])
    }

    pub fn new() -> (r: Self)
        ensures
            r.wf(),
            r.current() is None,
            r.history() == Seq::<AppUsageSession>::empty(),
            r.totals() == (UsageTotals { productive: 0, neutral: 0, unproductive: 0, idle: 0 }),
    {
        AppUsageTracker {
            current_session: None,
            session_history: Vec::new(),
            totals: UsageTotals { productive: 0, neutral: 0, unproductive: 0, idle: 0 },
        }
    }

    fn update_totals(&mut self, session: &AppUsageSession)
        ensures
            final(self).totals() == totals_after(old(self).totals(), *session),
            final(self).current() == old(self).current(),
            final(self).history() == old(self).history(),
    {
        let d = session.duration_seconds;
        if session.is_idle {
            self.totals.idle = saturating_add_i64(self.totals.idle, d);
        } else {
            match session.category {
                ProductivityCategory::PRODUCTIVE => {
                    self.totals.productive = saturating_add_i64(self.totals.productive, d);
                },
                ProductivityCategory::NEUTRAL => {
                    self.totals.neutral = saturating_add_i64(self.totals.neutral, d);
                },
                ProductivityCategory::UNPRODUCTIVE => {
                    self.totals.unproductive = saturating_add_i64(self.totals.unproductive, d);
                },
            }
        }
    }

    /// Closes the open session, if any, at `now`: it gets its end time and a
    /// duration of `now` less its start, and joins the history.  Returns
    /// whether a session was closed.
    pub fn end_current_session(&mut self, now: i64) -> (r: bool)
        requires
            old(self).wf(),
            valid_time(now),
        ensures
            final(self).wf(),
            final(self).current() is None,
            r == old(self).current() is Some,
            match old(self).current() {
                Some(c) => {
                    &&& final(self).history() == old(self).history().push(closed_at(c, now))
                    &&& final(self).totals() == totals_after(old(self).totals(), closed_at(c, now))
                },
                None => final(self).history() == old(self).history() && final(self).totals()
                    == old(self).totals(),
            },
    {
        match self.current_session.take() {
            Some(mut current) => {
                current.end_time = Some(now);
                current.duration_seconds = now - current.start_time;
                current.is_active = false;
                self.update_totals(&current);
                let ghost before = self.session_history@;
                let ghost closed = current;
                assert(before == old(self).history());
                assert(is_closed(closed));
                self.session_history.push(current);
                proof {
                    assert forall|i: int| 0 <= i < self.history().len() implies is_closed(
                        #[trigger] self.history()[i],
                    ) by {
                        if i < before.len() {
                            assert(self.history()[i] == before[i]);
                            assert(before[i] == old(self).history()[i]);
                            assert(is_closed(old(self).history()[i]));
                        } else {
                            assert(self.history()[i] == closed);
                        }
                    }
                }
                true
            },
            None => false,
        }
    }

    /// Closes the open session at `now`, as `end_current_session` does, and
    /// opens one for the given application, starting at `now`.  Returns
    /// whether a session was closed.
    pub fn start_app_session(
        &mut self,
        now: i64,
        app_name: String,
        app_id: String,
        window_title: Option<String>,
        category: ProductivityCategory,
        is_idle: bool,
    ) -> (r: bool)
        requires
            old(self).wf(),
            valid_time(now),
        ensures
            final(self).wf(),
            r == old(self).current() is Some,
            final(self).current() == Some(
                AppUsageSession {
                    id: None,
                    app_name,
                    app_id,
                    window_title,
                    category,
                    start_time: now,
                    end_time: None,
                    duration_seconds: 0,
                    is_idle,
                    is_active: true,
                },
            ),
            match old(self).current() {
                Some(c) => {
                    &&& final(self).history() == old(self).history().push(closed_at(c, now))
                    &&& final(self).totals() == totals_after(old(self).totals(), closed_at(c, now))
                },
                None => final(self).history() == old(self).history() && final(self).totals()
                    == old(self).totals(),
            },
    {
        let closed = self.end_current_session(now);
        self.current_session = Some(
            AppUsageSession {
                id: None,
                app_name,
                app_id,
                window_title,
                category,
                start_time: now,
                end_time: None,
                duration_seconds: 0,
                is_idle,
                is_active: true,
            },
        );
        closed
    }

    /// Refreshes the idle flag of the open session in place.
    pub fn update_current_session(&mut self, is_idle: bool)
        requires
            old(self).wf(),
        ensures
            final(self).wf(),
            final(self).history() == old(self).history(),
            final(self).totals() == old(self).totals(),
            match old(self).current() {
                Some(c) => final(self).current() == Some(AppUsageSession { is_idle, ..c }),
                None => final(self).current() is None,
            },
    {
        match self.current_session.take() {
            Some(mut c) => {
                c.is_idle = is_idle;
                self.current_session = Some(c);
            },
            None => {},
        }
        assert(self.history() == old(self).history());
    }

    /// After a suspend: the open session, if any, is closed at `now` and
    /// counted as idle; no new session opens until focus is seen again.
    /// Returns whether a session was closed.
    pub fn handle_system_wake(&mut self, now: i64) -> (r: bool)
        requires
            old(self).wf(),
            valid_time(now),
        ensures
            final(self).wf(),
            final(self).current() is None,
            r == old(self).current() is Some,
            match old(self).current() {
                Some(c) => {
                    let s = closed_at(AppUsageSession { is_idle: true, ..c }, now);
                    &&& final(self).history() == old(self).history().push(s)
                    &&& final(self).totals() == totals_after(old(self).totals(), s)
                },
                None => final(self).history() == old(self).history() && final(self).totals()
                    == old(self).totals(),
            },
    {
        self.update_current_session(true);
        self.end_current_session(now)
    }

    /// Closes the open session at `now` and hands it back, then clears the
    /// tracker: no sessions, zero totals.
    pub fn reset_tracker(&mut self, now: i64) -> (r: Option<AppUsageSession>)
        requires
            old(self).wf(),
            valid_time(now),
        ensures
            final(self).wf(),
            final(self).current() is None,
            final(self).history() == Seq::<AppUsageSession>::empty(),
            final(self).totals() == (UsageTotals {
                productive: 0,
                neutral: 0,
                unproductive: 0,
                idle: 0,
            }),
            match old(self).current() {
                Some(c) => r == Some(closed_at(c, now)),
                None => r is None,
            },
    {
        let closed = match self.current_session.take() {
            Some(mut current) => {
                current.end_time = Some(now);
                current.duration_seconds = now - current.start_time;
                current.is_active = false;
                Some(current)
            },
            None => None,
        };
        *self = AppUsageTracker::new();
        closed
    }

    /// The open session, if any.
    pub fn get_current_session(&self) -> (r: Option<&AppUsageSession>)
        ensures
            match self.current() {
                Some(c) => r == Some(&c),
                None => r is None,
            },
    {
        self.current_session.as_ref()
    }

    /// Time per application at `now`: the open session, counted up to `now`,
    /// then the closed ones in order; each application once.
    pub fn get_app_usage_summary(&self, now: i64) -> (r: Vec<AppUsageSummary>)
        requires
            self.wf(),
            valid_time(now),
        ensures
            names_distinct(r@),
            r@ == summary_history(
                match self.current() {
                    Some(c) => summary_add(Seq::empty(), c, (now - c.start_time) as i64),
                    None => Seq::empty(),
                },
                self.history(),
            ),
    {
        let mut l: Vec<AppUsageSummary> = Vec::new();
        match &self.current_session {
            Some(c) => {
                add_to_summary(&mut l, c, now - c.start_time);
            },
            None => {},
        }
        let ghost start = l@;
        let n = self.session_history.len();
        let mut i: usize = 0;
        while i < n
            invariant
                n == self.history().len(),
                0 <= i <= n,
                names_distinct(l@),
                l@ == summary_history(start, self.history().take(i as int)),
            decreases n - i,
        {
            let s = &self.session_history[i];
            proof {
                let t = self.history().take(i as int + 1);
                assert(t.drop_last() =~= self.history().take(i as int));
                assert(t.last() == *s);
            }
            add_to_summary(&mut l, s, s.duration_seconds);
            i = i + 1;
        }
        proof {
            assert(self.history().take(n as int) =~= self.history());
        }
        l
    }

    /// The closed sessions, oldest first.
    pub fn get_session_history(&self) -> (r: &Vec<AppUsageSession>)
        ensures
            r@ == self.history(),
    {
        &self.session_history
    }

    /// Productive, neutral, unproductive and idle seconds of the closed
    /// sessions.
    pub fn get_totals(&self) -> (r: (i64, i64, i64, i64))
        ensures
            r == (
                self.totals().productive,
                self.totals().neutral,
                self.totals().unproductive,
                self.totals().idle,
            ),
    {
        (self.totals.productive, self.totals.neutral, self.totals.unproductive, self.totals.idle)
    }
}

/// However the tracker was driven, at most one of its sessions is open.
pub proof fn lemma_at_most_one_open(t: &AppUsageTracker)
    requires
        t.wf(),
    ensures
        open_count(t.all_sessions()) <= 1,
        forall|i: int|
            0 <= i < t.all_sessions().len() && (#[trigger] t.all_sessions()[i]).is_active ==> i
                == t.history().len() && t.current() is Some,
{
    let h = t.history();
    assert forall|i: int| 0 <= i < h.len() implies !(#[trigger] h[i]).is_active by {
        assert(is_closed(h[i]));
    }
    lemma_no_open(h);
    match t.current() {
        Some(c) => {
            assert(t.all_sessions().drop_last() =~= h);
        },
        None => {},
    }
    assert forall|i: int|
        0 <= i < t.all_sessions().len() && (#[trigger] t.all_sessions()[i]).is_active implies i
        == h.len() && t.current() is Some by {
        if i < h.len() {
            assert(t.all_sessions()[i] == h[i]);
        }
    }
}

/// Every session the tracker closed, whether on a change of focus, on a stop
/// or on a wake, lasts exactly its end time less its start time.
pub proof fn lemma_closed_duration(t: &AppUsageTracker, i: int)
    requires
        t.wf(),
        0 <= i < t.history().len(),
    ensures
        t.history()[i].end_time is Some,
        t.history()[i].duration_seconds == t.history()[i].end_time->0 - t.history()[i].start_time,
{
    assert(is_closed(t.history()[i]));
}

} // verus!
