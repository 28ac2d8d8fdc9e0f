//! Usage reports: totals over the per-application summaries and the
//! applications ranked by time.
use vstd::prelude::*;

use crate::usage::{sat_add, saturating_add_i64, AppUsageSummary};

verus! {

/// Applications a daily report lists at most.
pub const TOP_APPS_LIMIT: usize = 10;

/// One application of a report, with its total seconds.
#[derive(Debug, Clone)]
pub struct RankedApp {
    pub app_name: String,
    pub app_id: String,
    pub total_time: i64,
    pub idle_time: i64,
}

/// A day's totals and its top applications, longest first.
#[derive(Debug, Clone)]
pub struct DailyTotals {
    pub total_work_time: i64,
    pub idle_time: i64,
    pub top_apps: Vec<RankedApp>,
}

/// How many leading entries have at least `t` seconds.
pub open spec fn lead_at_least(l: Seq<RankedApp>, t: i64) -> nat
    decreases l.len(),
{
    if l.len() > 0 && l[0].total_time >= t {
        1 + lead_at_least(l.drop_first(), t)
    } else {
        0
    }
}

/// An entry joins after every entry with at least as much time: equal times
/// keep the order in which they came.
pub open spec fn ranked_insert(l: Seq<RankedApp>, a: RankedApp) -> Seq<RankedApp> {
    l.insert(lead_at_least(l, a.total_time) as int, a)
}

pub open spec fn ranked(l: Seq<RankedApp>) -> Seq<RankedApp>
    decreases l.len(),
{
    if l.len() == 0 {
        l
    } else {
        ranked_insert(ranked(l.drop_last()), l.last())
    }
}

pub open spec fn longest_first(l: Seq<RankedApp>) -> bool {
    forall|i: int, j: int|
        0 <= i < j < l.len() ==> #[trigger] l[i].total_time >= #[trigger] l[j].total_time
}

pub open spec fn ranked_entry(s: AppUsageSummary) -> RankedApp {
    RankedApp {
        app_name: s.app_name,
        app_id: s.app_id,
        total_time: s.total_time,
        idle_time: s.idle_time,
    }
}

pub open spec fn total_of(l: Seq<AppUsageSummary>) -> i64
    decreases l.len(),
{
    if l.len() == 0 {
        0
    } else {
        sat_add(total_of(l.drop_last()), l.last().total_time)
    }
}

pub open spec fn idle_of(l: Seq<AppUsageSummary>) -> i64
    decreases l.len(),
{
    if l.len() == 0 {
        0
    } else {
        sat_add(idle_of(l.drop_last()), l.last().idle_time)
    }
}

proof fn lemma_lead_at_least(l: Seq<RankedApp>, t: i64)
    ensures
        lead_at_least(l, t) <= l.len(),
        forall|i: int| 0 <= i < lead_at_least(l, t) ==> l[i].total_time >= t,
        lead_at_least(l, t) < l.len() ==> l[lead_at_least(l, t) as int].total_time < t,
    decreases l.len(),
{
    if l.len() > 0 && l[0].total_time >= t {
        lemma_lead_at_least(l.drop_first(), t);
        assert forall|i: int| 0 <= i < lead_at_least(l, t) implies l[i].total_time >= t by {
            if i > 0 {
                assert(l[i] == l.drop_first()[i - 1]);
            }
        }
    }
}

proof fn lemma_ranked_insert_sorted(l: Seq<RankedApp>, a: RankedApp)
    requires
        longest_first(l),
    ensures
        longest_first(ranked_insert(l, a)),
{
    lemma_lead_at_least(l, a.total_time);
    let k = lead_at_least(l, a.total_time) as int;
    let s = ranked_insert(l, a);
    assert forall|i: int, j: int| 0 <= i < j < s.len() implies #[trigger] s[i].total_time
        >= #[trigger] s[j].total_time by {
        if i < k && j > k {
            assert(s[j] == l[j - 1]);
        } else if i == k && j > k {
            assert(s[j] == l[j - 1]);
            assert(l[k].total_time >= l[j - 1].total_time || k == j - 1);
        } else if i > k {
            assert(s[i] == l[i - 1]);
            assert(s[j] == l[j - 1]);
        }
    }
}

proof fn lemma_ranked_sorted(l: Seq<RankedApp>)
    ensures
        longest_first(ranked(l)),
        ranked(l).len() == l.len(),
    decreases l.len(),
{
    if l.len() > 0 {
        lemma_ranked_sorted(l.drop_last());
        lemma_ranked_insert_sorted(ranked(l.drop_last()), l.last());
        lemma_lead_at_least(ranked(l.drop_last()), l.last().total_time);
    }
}

fn insert_ranked(l: &mut Vec<RankedApp>, a: RankedApp)
    ensures
        final(l)@ == ranked_insert(old(l)@, a),
{
    let ghost before = l@;
    let n = l.len();
    let mut k: usize = 0;
    proof {
        assert(before.skip(0) =~= before);
    }
    while k < n && l[k].total_time >= a.total_time
        invariant
            n == l@.len(),
            l@ == before,
            0 <= k <= n,
            lead_at_least(before, a.total_time) == k + lead_at_least(before.skip(k as int), a.total_time),
        decreases n - k,
    {
        proof {
            assert(before.skip(k as int).drop_first() =~= before.skip(k as int + 1));
            assert(before.skip(k as int)[0] == before[k as int]);
        }
        k = k + 1;
    }
    proof {
        if k < n {
            assert(before.skip(k as int)[0] == before[k as int]);
        } else {
            assert(before.skip(k as int) =~= Seq::<RankedApp>::empty());
        }
    }
    l.insert(k, a);
}

/// The applications of `summaries`, longest first (equal times in their
/// given order), at most `limit` of them.
pub fn rank_apps(summaries: &Vec<AppUsageSummary>, limit: usize) -> (r: Vec<RankedApp>)
    ensures
        longest_first(r@),
        r@ == if summaries@.len() <= limit {
            ranked(summaries@.map_values(|s: AppUsageSummary| ranked_entry(s)))
        } else {
            ranked(summaries@.map_values(|s: AppUsageSummary| ranked_entry(s))).take(limit as int)
        },
{
    let ghost src = summaries@.map_values(|s: AppUsageSummary| ranked_entry(s));
    let mut out: Vec<RankedApp> = Vec::new();
    let n = summaries.len();
    let mut i: usize = 0;
    while i < n
        invariant
            n == summaries@.len(),
            src == summaries@.map_values(|s: AppUsageSummary| ranked_entry(s)),
            0 <= i <= n,
            out@ == ranked(src.take(i as int)),
        decreases n - i,
    {
        let s = &summaries[i];
        let e = RankedApp {
            app_name: s.app_name.clone(),
            app_id: s.app_id.clone(),
            total_time: s.total_time,
            idle_time: s.idle_time,
        };
        proof {
            let t = src.take(i as int + 1);
            assert(t.drop_last() =~= src.take(i as int));
            assert(t.last() == e);
        }
        insert_ranked(&mut out, e);
        i = i + 1;
    }
    proof {
        assert(src.take(n as int) =~= src);
        lemma_ranked_sorted(src);
    }
    out.truncate(limit);
    proof {
        if n > limit {
            assert(out@ =~= ranked(src).take(limit as int));
        }
    }
    out
}

/// One application's line of a usage report over `start_time..end_time`
/// (seconds since the Unix epoch).
#[derive(Debug, Clone)]
pub struct AppUsageEntry {
    pub app_name: String,
    pub app_id: String,
    pub window_title: Option<String>,
    pub start_time: i64,
    pub end_time: i64,
    pub duration: i64,
    pub is_idle: bool,
}

/// A usage report: totals and every application, longest first.
#[derive(Debug, Clone)]
pub struct AppUsageReport {
    pub employee_id: String,
    pub device_id: String,
    pub start_time: i64,
    pub end_time: i64,
    pub total_idle_time: i64,
    pub total_active_time: i64,
    pub app_usage: Vec<AppUsageEntry>,
}

pub open spec fn usage_entry(a: RankedApp, start_time: i64, end_time: i64) -> AppUsageEntry {
    AppUsageEntry {
        app_name: a.app_name,
        app_id: a.app_id,
        window_title: None,
        start_time,
        end_time,
        duration: a.total_time,
        is_idle: a.idle_time > 0,
    }
}

/// Produces usage reports for one employee's device.
#[derive(Debug, Clone)]
pub struct ReportGenerator {
    pub employee_id: String,
    pub device_id: String,
}

impl ReportGenerator {
    pub fn new(employee_id: String, device_id: String) -> (r: Self)
        ensures
            r.employee_id == employee_id,
            r.device_id == device_id,
    {
        ReportGenerator { employee_id, device_id }
    }

    /// A day's report from the per-application summaries: total and idle
    /// seconds over all applications, and the ten with the most time.
    pub fn generate_daily_report(&self, summaries: &Vec<AppUsageSummary>) -> (r: DailyTotals)
        ensures
            r.total_work_time == total_of(summaries@),
            r.idle_time == idle_of(summaries@),
            longest_first(r.top_apps@),
            r.top_apps@ == if summaries@.len() <= TOP_APPS_LIMIT {
                ranked(summaries@.map_values(|s: AppUsageSummary| ranked_entry(s)))
            } else {
                ranked(summaries@.map_values(|s: AppUsageSummary| ranked_entry(s))).take(
                    TOP_APPS_LIMIT as int,
                )
            },
    {
        let n = summaries.len();
        let mut total: i64 = 0;
        let mut idle: i64 = 0;
        let mut i: usize = 0;
        while i < n
            invariant
                n == summaries@.len(),
                0 <= i <= n,
                total == total_of(summaries@.take(i as int)),
                idle == idle_of(summaries@.take(i as int)),
            decreases n - i,
        {
            proof {
                let t = summaries@.take(i as int + 1);
                assert(t.drop_last() =~= summaries@.take(i as int));
                assert(t.last() == summaries@[i as int]);
            }
            total = saturating_add_i64(total, summaries[i].total_time);
            idle = saturating_add_i64(idle, summaries[i].idle_time);
            i = i + 1;
        }
        proof {
            assert(summaries@.take(n as int) =~= summaries@);
        }
        DailyTotals {
            total_work_time: total,
            idle_time: idle,
            top_apps: rank_apps(summaries, TOP_APPS_LIMIT),
        }
    }

    /// A usage report over `start_time..end_time`: total and idle seconds,
    /// and every application, longest first, marked idle when it had idle
    /// time.
    pub fn generate_app_usage_report(
        &self,
        summaries: &Vec<AppUsageSummary>,
        start_time: i64,
        end_time: i64,
    ) -> (r: AppUsageReport)
        ensures
            r.employee_id == self.employee_id,
            r.device_id == self.device_id,
            r.start_time == start_time,
            r.end_time == end_time,
            r.total_active_time == total_of(summaries@),
            r.total_idle_time == idle_of(summaries@),
            r.app_usage@ == ranked(summaries@.map_values(|s: AppUsageSummary| ranked_entry(s))).map_values(
                |a: RankedApp| usage_entry(a, start_time, end_time),
            ),
    {
        let totals = self.generate_daily_report(summaries);
        let count: usize = summaries.len();
        assert(summaries@.len() == count);
        let ranked_all = rank_apps(summaries, usize::MAX);
        let ghost rs = ranked_all@;
        let mut entries: Vec<AppUsageEntry> = Vec::new();
        let mut rest = ranked_all;
        let ghost mut taken: int = 0;
        while rest.len() > 0
            invariant
                0 <= taken <= rs.len(),
                rest@ == rs.skip(taken),
                entries@ == rs.take(taken).map_values(|a: RankedApp| usage_entry(a, start_time, end_time)),
            decreases rest@.len(),
        {
            let a = rest.remove(0);
            proof {
                assert(a == rs[taken]);
                assert(rs.skip(taken + 1) =~= rs.skip(taken).drop_first());
            }
            let e = AppUsageEntry {
                app_name: a.app_name,
                app_id: a.app_id,
                window_title: None,
                start_time,
                end_time,
                duration: a.total_time,
                is_idle: a.idle_time > 0,
            };
            entries.push(e);
            proof {
                taken = taken + 1;
                assert(entries@ =~= rs.take(taken).map_values(|a: RankedApp| usage_entry(a, start_time, end_time)));
            }
        }
        proof {
            assert(rs.take(taken) =~= rs);
        }
        AppUsageReport {
            employee_id: self.employee_id.clone(),
            device_id: self.device_id.clone(),
            start_time,
            end_time,
            total_idle_time: totals.idle_time,
            total_active_time: totals.total_work_time,
            app_usage: entries,
        }
    }
}

} // verus!
