//! Idle-state tracking: edge-triggered idle/active transitions, and coarse
//! suspend detection from gaps between polls.
use vstd::prelude::*;

use crate::lifecycle::LoopStep;
use crate::usage::valid_time;

verus! {

#[derive(Debug, Clone, Copy, PartialEq, Eq, Structural)]
pub enum IdleTransition {
    /// Sent as an `idle_start` event.
    IdleStart,
    /// Sent as an `idle_end` event.
    IdleEnd,
}

impl IdleTransition {
    /// The event type sent for the transition.
    pub fn event_type(&self) -> (r: &'static str)
        ensures
            r@ == (match self {
                IdleTransition::IdleStart => "idle_start"@,
                IdleTransition::IdleEnd => "idle_end"@,
            }),
    {
        match self {
            IdleTransition::IdleStart => "idle_start",
            IdleTransition::IdleEnd => "idle_end",
        }
    }
}

/// The result of one poll of the idle tracker.
#[derive(Debug, Clone, Copy, PartialEq, Eq, Structural)]
pub enum IdlePoll {
    /// Services may not run: nothing sampled, the baseline is cleared.
    Paused,
    /// The services were stopped: the loop ends.
    Stopped,
    /// One reading was taken while services may run.
    Sampled {
        /// The gap since the previous poll when it shows a suspend.
        wake_gap: Option<u64>,
        is_idle: bool,
        /// The transition to report, if the idle state flipped.
        transition: Option<IdleTransition>,
    },
}

/// A gap between polls is a suspend when it exceeds three poll intervals.
pub open spec fn suspend_gap(last_check: i64, now: i64, interval: u64) -> Option<u64> {
    if now - last_check > 3 * interval {
        Some((now - last_check) as u64)
    } else {
        None
    }
}

pub open spec fn transition_spec(last: Option<bool>, is_idle: bool) -> Option<IdleTransition> {
    match last {
        None => None,
        Some(prev) => if prev == is_idle {
            None
        } else if is_idle {
            Some(IdleTransition::IdleStart)
        } else {
            Some(IdleTransition::IdleEnd)
        },
    }
}

/// The idle baseline of the tracker and its configuration.
pub struct IdleTracker {
    last_idle: Option<bool>,
    threshold_seconds: u64,
    interval_seconds: u64,
    last_check: i64,
}

impl IdleTracker {
    /// The last observed idle state; `None` until a first reading after a
    /// (re)start.
    pub closed spec fn baseline(&self) -> Option<bool> {
        self.last_idle
    }

    pub closed spec fn threshold(&self) -> u64 {
        self.threshold_seconds
    }

    pub closed spec fn interval(&self) -> u64 {
        self.interval_seconds
    }

    pub closed spec fn last_check(&self) -> i64 {
        self.last_check
    }

    pub closed spec fn wf(&self) -> bool {
        valid_time(self.last_check)
    }

    /// A tracker with no baseline, whose last poll was at `now`.
    pub fn new(threshold_seconds: u64, interval_seconds: u64, now: i64) -> (r: Self)
        requires
            valid_time(now),
        ensures
            r.wf(),
            r.baseline() is None,
            r.threshold() == threshold_seconds,
            r.interval() == interval_seconds,
            r.last_check() == now,
    {
        IdleTracker { last_idle: None, threshold_seconds, interval_seconds, last_check: now }
    }

    /// Forgets the baseline, so the next reading only seeds it.
    pub fn reset_idle_state(&mut self)
        ensures
            final(self).baseline() is None,
            final(self).threshold() == old(self).threshold(),
            final(self).interval() == old(self).interval(),
            final(self).last_check() == old(self).last_check(),
            final(self).wf() == old(self).wf(),
    {
        self.last_idle = None;
    }

    /// Whether a reading counts as idle.
    pub fn is_idle(&self, idle_seconds: u64) -> (r: bool)
        ensures
            r == (idle_seconds >= self.threshold()),
    {
        idle_seconds >= self.threshold_seconds
    }

    /// Takes one reading: the first after a reset seeds the baseline and
    /// reports nothing; later ones report a transition exactly when the idle
    /// state flips.
    pub fn observe(&mut self, idle_seconds: u64) -> (r: Option<IdleTransition>)
        ensures
            r == transition_spec(old(self).baseline(), idle_seconds >= old(self).threshold()),
            final(self).baseline() == Some(idle_seconds >= old(self).threshold()),
            final(self).threshold() == old(self).threshold(),
            final(self).interval() == old(self).interval(),
            final(self).last_check() == old(self).last_check(),
            final(self).wf() == old(self).wf(),
    {
        let idle = idle_seconds >= self.threshold_seconds;
        let r = match self.last_idle {
            None => None,
            Some(prev) => if prev == idle {
                None
            } else if idle {
                Some(IdleTransition::IdleStart)
            } else {
                Some(IdleTransition::IdleEnd)
            },
        };
        self.last_idle = Some(idle);
        r
    }

    /// Records a poll at `now`.  A gap of more than three intervals since the
    /// previous poll is taken as a suspend: the baseline is cleared and the
    /// gap returned.
    pub fn check_time_gap(&mut self, now: i64) -> (r: Option<u64>)
        requires
            old(self).wf(),
            valid_time(now),
        ensures
            final(self).wf(),
            r == suspend_gap(old(self).last_check(), now, old(self).interval()),
            final(self).last_check() == now,
            final(self).baseline() == if r is Some {
                None
            } else {
                old(self).baseline()
            },
            final(self).threshold() == old(self).threshold(),
            final(self).interval() == old(self).interval(),
    {
        let gap: i64 = now - self.last_check;
        self.last_check = now;
        if gap > 0 && self.interval_seconds < 0x1_0000_0000_0000 && (gap as u64) > 3
            * self.interval_seconds {
            self.last_idle = None;
            Some(gap as u64)
        } else {
            None
        }
    }

    /// One iteration of the idle loop.  Nothing is sampled unless services may run;
    /// otherwise the baseline is cleared, so reopening never reports a
    /// transition from before.
    pub fn poll(&mut self, step: LoopStep, now: i64, idle_seconds: u64) -> (r: IdlePoll)
        requires
            old(self).wf(),
            valid_time(now),
        ensures
            final(self).wf(),
            final(self).threshold() == old(self).threshold(),
            final(self).interval() == old(self).interval(),
            step == LoopStep::Wait ==> r == IdlePoll::Paused && final(self).baseline() is None,
            step == LoopStep::Terminate ==> r == IdlePoll::Stopped && final(self).baseline() is None,
            step == LoopStep::Proceed ==> {
                let gap = suspend_gap(old(self).last_check(), now, old(self).interval());
                let base = if gap is Some {
                    None
                } else {
                    old(self).baseline()
                };
                let idle = idle_seconds >= old(self).threshold();
                &&& r == IdlePoll::Sampled {
                    wake_gap: gap,
                    is_idle: idle,
                    transition: transition_spec(base, idle),
                }
                &&& final(self).baseline() == Some(idle)
                &&& final(self).last_check() == now
            },
    {
        match step {
            LoopStep::Wait => {
                self.reset_idle_state();
                IdlePoll::Paused
            },
            LoopStep::Terminate => {
                self.reset_idle_state();
                IdlePoll::Stopped
            },
            LoopStep::Proceed => {
                let wake_gap = self.check_time_gap(now);
                let is_idle = self.is_idle(idle_seconds);
                let transition = self.observe(idle_seconds);
                IdlePoll::Sampled { wake_gap, is_idle, transition }
            },
        }
    }
}

} // verus!
