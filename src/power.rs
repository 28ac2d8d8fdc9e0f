//! Power-state bookkeeping: last activity, sleep start and the sleeping flag.
use vstd::prelude::*;

verus! {

/// A gap since the last activity longer than this (ten minutes) counts as a
/// sleep.
pub const SLEEP_THRESHOLD: u64 = 600;

/// Times are seconds since the Unix epoch; zero means never.
#[derive(Debug, Clone, Copy, PartialEq, Eq, Structural)]
pub struct PowerState {
    last_activity: u64,
    sleep_start: u64,
    is_sleeping: bool,
}

impl PowerState {
    pub closed spec fn last_activity(&self) -> u64 {
        self.last_activity
    }

    pub closed spec fn sleep_start(&self) -> u64 {
        self.sleep_start
    }

    pub closed spec fn sleeping(&self) -> bool {
        self.is_sleeping
    }

    /// Monitoring starts with activity at `now`, awake.
    pub fn init(now: u64) -> (r: Self)
        ensures
            r.last_activity() == now,
            r.sleep_start() == 0,
            !r.sleeping(),
    {
        PowerState { last_activity: now, sleep_start: 0, is_sleeping: false }
    }

    pub fn update_last_activity(&mut self, now: u64)
        ensures
            final(self).last_activity() == now,
            final(self).sleep_start() == old(self).sleep_start(),
            final(self).sleeping() == old(self).sleeping(),
    {
        self.last_activity = now;
    }

    pub fn get_last_activity_timestamp(&self) -> (r: u64)
        ensures
            r == self.last_activity(),
    {
        self.last_activity
    }

    pub fn is_system_sleeping(&self) -> (r: bool)
        ensures
            r == self.sleeping(),
    {
        self.is_sleeping
    }

    pub fn mark_sleep_start(&mut self, now: u64)
        ensures
            final(self).sleep_start() == now,
            final(self).sleeping(),
            final(self).last_activity() == old(self).last_activity(),
    {
        self.sleep_start = now;
        self.is_sleeping = true;
    }

    /// Ends a sleep and returns how long it lasted: `now` less its start, or
    /// zero when no start is known (or the clock went back).
    pub fn mark_wake_up(&mut self, now: u64) -> (r: u64)
        ensures
            r == if old(self).sleep_start() > 0 && now > old(self).sleep_start() {
                (now - old(self).sleep_start()) as u64
            } else {
                0
            },
            !final(self).sleeping(),
            final(self).sleep_start() == 0,
            final(self).last_activity() == old(self).last_activity(),
    {
        let start = self.sleep_start;
        let d = if start > 0 {
            now.saturating_sub(start)
        } else {
            0
        };
        self.is_sleeping = false;
        self.sleep_start = 0;
        d
    }

    /// The gap since the last activity when it exceeds the sleep threshold.
    pub fn detect_time_gap(&self, now: u64) -> (r: Option<u64>)
        ensures
            r == if self.last_activity() > 0 && now > self.last_activity() && now
                - self.last_activity() > SLEEP_THRESHOLD {
                Some((now - self.last_activity()) as u64)
            } else {
                None
            },
    {
        if self.last_activity > 0 {
            let gap = now.saturating_sub(self.last_activity);
            if gap > SLEEP_THRESHOLD {
                return Some(gap);
            }
        }
        None
    }

    /// Entering sleep: `true` when it starts a sleep, `false` when one was
    /// already under way (then nothing changes).
    pub fn handle_system_sleep(&mut self, now: u64) -> (r: bool)
        ensures
            r == !old(self).sleeping(),
            r ==> final(self).sleeping() && final(self).sleep_start() == now
                && final(self).last_activity() == old(self).last_activity(),
            !r ==> *final(self) == *old(self),
    {
        if self.is_sleeping {
            return false;
        }
        self.mark_sleep_start(now);
        true
    }

    /// A wake after `sleep_duration` seconds (zero when unknown): the length
    /// of the sleep to report, or `None` when there was no sleep.  With an
    /// unknown duration the recorded sleep is ended and measured.
    pub fn handle_system_wake(&mut self, sleep_duration: u64, now: u64) -> (r: Option<u64>)
        ensures
            !old(self).sleeping() && sleep_duration == 0 ==> r is None && *final(self) == *old(
                self,
            ),
            sleep_duration > 0 ==> r == Some(sleep_duration) && *final(self) == *old(self),
            old(self).sleeping() && sleep_duration == 0 ==> {
                &&& r == Some(
                    if old(self).sleep_start() > 0 && now > old(self).sleep_start() {
                        (now - old(self).sleep_start()) as u64
                    } else {
                        0u64
                    },
                )
                &&& !final(self).sleeping()
            },
    {
        if !self.is_sleeping && sleep_duration == 0 {
            return None;
        }
        if sleep_duration > 0 {
            Some(sleep_duration)
        } else {
            Some(self.mark_wake_up(now))
        }
    }
}

} // verus!
