//! Clocking in and out: the work session and the services move together.
use vstd::prelude::*;

use crate::focus::FocusTracker;
use crate::idle::IdleTracker;
use crate::lifecycle::{LoopStep, ServiceHandle};
use crate::usage::{closed_at, valid_time};
use crate::worksession::{close_all, WorkSession, WorkSessionStore};

verus! {

/// Clocks in at `now`: a new work session starts (closing any other) and
/// the services start unpaused.  Returns the new session's id; `None` only
/// when session ids are exhausted, and then nothing starts.
pub fn clock_in(service: &mut ServiceHandle, work: &mut WorkSessionStore, now: i64) -> (r: Option<
    i64,
>)
    requires
        old(work).wf(),
    ensures
        final(work).wf(),
        old(work).next_id() < i64::MAX ==> {
            &&& r == Some(old(work).next_id())
            &&& final(work).sessions() == close_all(old(work).sessions(), now).push(
                WorkSession {
                    id: old(work).next_id(),
                    started_at: now,
                    ended_at: None,
                    is_active: true,
                },
            )
            &&& final(service).running()
            &&& !final(service).paused()
        },
        old(work).next_id() == i64::MAX ==> r is None && final(work).sessions() == old(
            work,
        ).sessions() && *final(service) == *old(service),
{
    let id = work.start_session(now);
    match id {
        Some(_) => service.start_services(),
        None => {},
    }
    id
}

/// Clocks out at `now`: the services stop, every active work session ends,
/// the idle baseline is forgotten and the open usage session is closed.
/// Afterwards every loop leaves at its next iteration, and nothing is left
/// open.
pub fn clock_out(
    service: &mut ServiceHandle,
    work: &mut WorkSessionStore,
    idle: &mut IdleTracker,
    focus: &mut FocusTracker,
    now: i64,
)
    requires
        old(work).wf(),
        old(focus).wf(),
        valid_time(now),
    ensures
        final(work).wf(),
        final(focus).wf(),
        !final(service).running(),
        final(work).sessions() == close_all(old(work).sessions(), now),
        forall|i: int|
            0 <= i < final(work).sessions().len() ==> !(#[trigger] final(work).sessions()[i]).is_active,
        final(idle).baseline() is None,
        final(focus).usage_spec().current() is None,
        final(focus).usage_spec().history() == match old(focus).usage_spec().current() {
            Some(c) => old(focus).usage_spec().history().push(closed_at(c, now)),
            None => old(focus).usage_spec().history(),
        },
        forall|authenticated: bool, clocked_in: bool|
            #[trigger] final(service).step_spec(authenticated, clocked_in) == LoopStep::Terminate,
{
    service.stop_services();
    work.end_session(now);
    proof {
        assert forall|i: int| 0 <= i < work.sessions().len() implies !(
        #[trigger] work.sessions()[i]).is_active by {
            assert(work.sessions()[i] == crate::worksession::closed_if_active(
                old(work).sessions()[i],
                now,
            ));
        }
    }
    idle.reset_idle_state();
    focus.poll(LoopStep::Terminate, now, None, false);
}

} // verus!
