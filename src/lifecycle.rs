//! The service lifecycle: the one run condition every sampling and delivery loop
//! consults at the top of each iteration.
use vstd::prelude::*;

verus! {

/// What a loop does with one iteration.
#[derive(Debug, Clone, Copy, PartialEq, Eq, Structural)]
pub enum LoopStep {
    /// Services may run: sample and deliver.
    Proceed,
    /// Services may not run now but are still started (paused, signed out or
    /// clocked out): idle one interval and check again.
    Wait,
    /// The services were stopped: clean up and leave the loop.
    Terminate,
}

/// Observable per-loop flags and last-activity times (seconds since the
/// Unix epoch), for status reporting.
#[derive(Debug, Clone, Copy, PartialEq, Eq, Structural)]
pub struct BackgroundServiceState {
    pub app_focus_running: bool,
    pub heartbeat_running: bool,
    pub idle_detection_running: bool,
    pub queue_processor_running: bool,
    pub last_app_check: Option<i64>,
    pub last_heartbeat: Option<i64>,
    pub last_idle_check: Option<i64>,
}

impl BackgroundServiceState {
    pub fn new() -> (r: Self)
        ensures
            !r.app_focus_running,
            !r.heartbeat_running,
            !r.idle_detection_running,
            !r.queue_processor_running,
            r.last_app_check is None,
            r.last_heartbeat is None,
            r.last_idle_check is None,
    {
        BackgroundServiceState {
            app_focus_running: false,
            heartbeat_running: false,
            idle_detection_running: false,
            queue_processor_running: false,
            last_app_check: None,
            last_heartbeat: None,
            last_idle_check: None,
        }
    }
}

/// The process-wide service state: running and paused flags plus the
/// status flags of the loops.  Created stopped and unpaused.
#[derive(Debug, Clone, Copy, PartialEq, Eq, Structural)]
pub struct ServiceHandle {
    running: bool,
    paused: bool,
    state: BackgroundServiceState,
}

impl ServiceHandle {
    pub closed spec fn running(&self) -> bool {
        self.running
    }

    pub closed spec fn paused(&self) -> bool {
        self.paused
    }

    /// The loop flags and last-activity times.
    pub closed spec fn status(&self) -> BackgroundServiceState {
        self.state
    }

    /// Telemetry may flow: signed in, clocked in, running and not paused.
    pub open spec fn may_run(&self, authenticated: bool, clocked_in: bool) -> bool {
        authenticated && clocked_in && self.running() && !self.paused()
    }

    pub open spec fn step_spec(&self, authenticated: bool, clocked_in: bool) -> LoopStep {
        if self.may_run(authenticated, clocked_in) {
            LoopStep::Proceed
        } else if self.running() {
            LoopStep::Wait
        } else {
            LoopStep::Terminate
        }
    }

    pub fn new() -> (r: Self)
        ensures
            !r.running(),
            !r.paused(),
            !r.status().app_focus_running,
            !r.status().heartbeat_running,
            !r.status().idle_detection_running,
            !r.status().queue_processor_running,
            r.status().last_app_check is None,
            r.status().last_heartbeat is None,
            r.status().last_idle_check is None,
    {
        ServiceHandle { running: false, paused: false, state: BackgroundServiceState::new() }
    }

    /// Starts the services, unpaused.
    pub fn start_services(&mut self)
        ensures
            final(self).running(),
            !final(self).paused(),
            final(self).status() == old(self).status(),
    {
        self.running = true;
        self.paused = false;
    }

    /// Stops the services: loops leave at their next iteration.
    pub fn stop_services(&mut self)
        ensures
            !final(self).running(),
            final(self).paused() == old(self).paused(),
            final(self).status() == old(self).status(),
    {
        self.running = false;
    }

    pub fn pause_services(&mut self)
        ensures
            final(self).running() == old(self).running(),
            final(self).paused(),
            final(self).status() == old(self).status(),
    {
        self.paused = true;
    }

    pub fn resume_services(&mut self)
        ensures
            final(self).running() == old(self).running(),
            !final(self).paused(),
            final(self).status() == old(self).status(),
    {
        self.paused = false;
    }

    pub fn is_services_running(&self) -> (r: bool)
        ensures
            r == self.running(),
    {
        self.running
    }

    pub fn is_services_paused(&self) -> (r: bool)
        ensures
            r == self.paused(),
    {
        self.paused
    }

    /// Whether telemetry may flow right now.
    pub fn should_services_run(&self, authenticated: bool, clocked_in: bool) -> (r: bool)
        ensures
            r == self.may_run(authenticated, clocked_in),
    {
        authenticated && clocked_in && self.running && !self.paused
    }

    /// What a loop does with its next iteration.
    pub fn loop_step(&self, authenticated: bool, clocked_in: bool) -> (r: LoopStep)
        ensures
            r == self.step_spec(authenticated, clocked_in),
    {
        if self.should_services_run(authenticated, clocked_in) {
            LoopStep::Proceed
        } else if self.running {
            LoopStep::Wait
        } else {
            LoopStep::Terminate
        }
    }

    /// A snapshot of the loop flags for display.
    pub fn get_service_state(&self) -> (r: BackgroundServiceState)
        ensures
            r == self.status(),
    {
        self.state
    }

    /// Applies a change of the loop flags or times, as a loop reports it.
    pub fn update_service_state(&mut self, state: BackgroundServiceState)
        ensures
            final(self).status() == state,
            final(self).running() == old(self).running(),
            final(self).paused() == old(self).paused(),
    {
        self.state = state;
    }
}

/// Seconds between polls of the foreground application.
pub fn get_app_focus_interval(dev_mode: bool) -> (r: u64)
    ensures
        r == if dev_mode {
            1u64
        } else {
            2u64
        },
{
    if dev_mode {
        1
    } else {
        2
    }
}

/// Seconds between regular heartbeats.
pub fn get_heartbeat_interval(dev_mode: bool) -> (r: u64)
    ensures
        r == if dev_mode {
            3u64
        } else {
            10u64
        },
{
    if dev_mode {
        3
    } else {
        10
    }
}

/// Seconds between polls for remote jobs.
pub fn get_job_polling_interval(dev_mode: bool) -> (r: u64)
    ensures
        r == if dev_mode {
            5u64
        } else {
            10u64
        },
{
    if dev_mode {
        5
    } else {
        10
    }
}

/// Loops proceed only while services may run; otherwise they wait
/// while the services are started and leave once they are stopped.
pub proof fn lemma_loops_proceed_only_when_allowed(h: ServiceHandle, authenticated: bool, clocked_in: bool)
    ensures
        h.step_spec(authenticated, clocked_in) == LoopStep::Proceed <==> h.may_run(
            authenticated,
            clocked_in,
        ),
        !h.running() ==> h.step_spec(authenticated, clocked_in) == LoopStep::Terminate,
{
}

} // verus!
