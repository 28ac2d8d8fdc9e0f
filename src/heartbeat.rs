//! Heartbeats: the coalescing immediate trigger and the status snapshot.
//!
//! Status policy: a heartbeat always reports the status `active`, so that an
//! idle user is still counted as online; whether the user is idle travels
//! separately in `is_idle` and `idle_time_seconds`.
use vstd::prelude::*;

use crate::lifecycle::LoopStep;
use crate::usage::{sat_add, saturating_add_i64, valid_time};

verus! {

/// A pending request for an immediate heartbeat.  Any number of triggers
/// before the emitter wakes collapse into one.
#[derive(Debug, Clone, Copy, PartialEq, Eq, Structural)]
pub struct HeartbeatTrigger {
    pending: bool,
}

impl HeartbeatTrigger {
    pub closed spec fn pending(&self) -> bool {
        self.pending
    }

    pub fn new() -> (r: Self)
        ensures
            !r.pending(),
    {
        HeartbeatTrigger { pending: false }
    }

    /// Asks for a heartbeat as soon as the emitter wakes.
    pub fn trigger_immediate_heartbeat(&mut self)
        ensures
            final(self).pending(),
    {
        self.pending = true;
    }

    /// Consumes the pending request, reporting whether there was one.
    pub fn take(&mut self) -> (r: bool)
        ensures
            r == old(self).pending(),
            !final(self).pending(),
    {
        let r = self.pending;
        self.pending = false;
        r
    }

    /// Whether the emitter should send on this wake: on its own interval
    /// tick, or when an immediate heartbeat was asked for.  Either way the
    /// pending request is consumed.
    pub fn on_wake(&mut self, interval_elapsed: bool) -> (r: bool)
        ensures
            r == (interval_elapsed || old(self).pending()),
            !final(self).pending(),
    {
        let asked = self.take();
        interval_elapsed || asked
    }

    /// Whether the emitter sends a heartbeat on this wake: only while
    /// services may run, on a tick or a pending request.  The request is consumed
    /// either way, so one that came before a pause does not fire after it.
    pub fn should_send(&mut self, step: LoopStep, interval_elapsed: bool) -> (r: bool)
        ensures
            r == (step == LoopStep::Proceed && (interval_elapsed || old(self).pending())),
            !final(self).pending(),
    {
        let due = self.on_wake(interval_elapsed);
        due && step == LoopStep::Proceed
    }
}

/// The foreground application a heartbeat reports.
#[derive(Debug, Clone)]
pub struct CurrentApp {
    pub name: String,
    pub app_id: String,
    pub window_title: Option<String>,
}

/// A heartbeat's content.  Times are seconds since the Unix epoch.
#[derive(Debug, Clone)]
pub struct HeartbeatSnapshot {
    pub timestamp: i64,
    pub idle_time_seconds: u64,
    pub is_idle: bool,
    pub current_app: Option<CurrentApp>,
    pub session_start_time: i64,
    pub total_session_time_seconds: i64,
    pub active_time_today_seconds: i64,
    pub idle_time_today_seconds: i64,
    pub is_paused: bool,
}

impl HeartbeatSnapshot {
    /// The status sent with every heartbeat.
    pub fn status(&self) -> (r: &'static str)
        ensures
            r@ == "active"@,
    {
        "active"
    }
}

/// Active seconds of a day: work time less idle time, never below zero.
pub open spec fn active_today(work: i64, idle: i64) -> i64 {
    if idle >= work {
        0
    } else if work - idle > i64::MAX {
        i64::MAX
    } else {
        (work - idle) as i64
    }
}

/// Splits a day's work time into active and idle seconds.
pub fn get_today_time_totals(total_work_time: i64, idle_time: i64) -> (r: (i64, i64))
    ensures
        r == (active_today(total_work_time, idle_time), idle_time),
{
    if idle_time >= total_work_time {
        (0, idle_time)
    } else if idle_time < 0 && total_work_time > i64::MAX + idle_time {
        (i64::MAX, idle_time)
    } else {
        (total_work_time - idle_time, idle_time)
    }
}

/// Composes the heartbeat at `now`.  With a work session open since
/// `session_start`, the session's elapsed time is added to the day's idle
/// or active total according to the current idle state; with none, the
/// session fields are `now` and zeros.
pub fn compose_heartbeat(
    now: i64,
    idle_time_seconds: u64,
    idle_threshold: u64,
    current_app: Option<CurrentApp>,
    session_start: Option<i64>,
    today_active: i64,
    today_idle: i64,
    is_paused: bool,
) -> (r: HeartbeatSnapshot)
    requires
        valid_time(now),
        session_start matches Some(s) ==> valid_time(s),
    ensures
        r.timestamp == now,
        r.idle_time_seconds == idle_time_seconds,
        r.is_idle == (idle_time_seconds >= idle_threshold),
        r.current_app == current_app,
        r.is_paused == is_paused,
        match session_start {
            Some(s) => {
                &&& r.session_start_time == s
                &&& r.total_session_time_seconds == now - s
                &&& r.active_time_today_seconds == if r.is_idle {
                    today_active
                } else {
                    sat_add(today_active, (now - s) as i64)
                }
                &&& r.idle_time_today_seconds == if r.is_idle {
                    sat_add(today_idle, (now - s) as i64)
                } else {
                    today_idle
                }
            },
            None => {
                &&& r.session_start_time == now
                &&& r.total_session_time_seconds == 0
                &&& r.active_time_today_seconds == 0
                &&& r.idle_time_today_seconds == 0
            },
        },
{
    let is_idle = idle_time_seconds >= idle_threshold;
    let (start, total, active, idle) = match session_start {
        Some(s) => {
            let total = now - s;
            if is_idle {
                (s, total, today_active, saturating_add_i64(today_idle, total))
            } else {
                (s, total, saturating_add_i64(today_active, total), today_idle)
            }
        },
        None => (now, 0, 0, 0),
    };
    HeartbeatSnapshot {
        timestamp: now,
        idle_time_seconds,
        is_idle,
        current_app,
        session_start_time: start,
        total_session_time_seconds: total,
        active_time_today_seconds: active,
        idle_time_today_seconds: idle,
        is_paused,
    }
}

} // verus!
