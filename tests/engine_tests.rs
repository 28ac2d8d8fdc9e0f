use trackex_agent::focus::{is_trackex_agent, AppInfo, FocusOutcome, FocusTracker};
use trackex_agent::heartbeat::{compose_heartbeat, get_today_time_totals, CurrentApp, HeartbeatTrigger};
use trackex_agent::idle::{IdlePoll, IdleTracker, IdleTransition};
use trackex_agent::lifecycle::{
    get_app_focus_interval, get_heartbeat_interval, get_job_polling_interval, BackgroundServiceState,
    LoopStep, ServiceHandle,
};
use trackex_agent::power::PowerState;
use trackex_agent::productivity::{AppRule, ProductivityCategory, ProductivityClassifier};
use trackex_agent::queue::{Outbox, DEFAULT_MAX_RETRIES};
use trackex_agent::report::ReportGenerator;
use trackex_agent::state::{AppState, TokenError};
use trackex_agent::usage::{AppUsageTracker, MAX_TIMESTAMP};

fn app(name: &str, id: &str) -> AppInfo {
    AppInfo { name: name.to_string(), app_id: id.to_string(), window_title: None }
}

#[test]
fn idle_transitions_fire_only_on_edges() {
    let mut t = IdleTracker::new(300, 3, 0);
    let readings = [50u64, 80, 310, 320, 90];
    let mut got = Vec::new();
    for (k, r) in readings.iter().enumerate() {
        match t.poll(LoopStep::Proceed, 3 * (k as i64 + 1), *r) {
            IdlePoll::Sampled { transition, wake_gap, .. } => {
                assert_eq!(wake_gap, None);
                got.push(transition);
            }
            other => panic!("unexpected {:?}", other),
        }
    }
    assert_eq!(
        got,
        vec![None, None, Some(IdleTransition::IdleStart), None, Some(IdleTransition::IdleEnd)]
    );
}

#[test]
fn first_idle_reading_never_fires() {
    let mut t = IdleTracker::new(300, 3, 0);
    assert_eq!(t.observe(10_000), None);
    assert_eq!(t.observe(0), Some(IdleTransition::IdleEnd));
    assert_eq!(IdleTransition::IdleStart.event_type(), "idle_start");
    assert_eq!(IdleTransition::IdleEnd.event_type(), "idle_end");
}

#[test]
fn paused_loop_resets_idle_baseline() {
    let mut t = IdleTracker::new(300, 3, 0);
    t.poll(LoopStep::Proceed, 3, 10);
    assert_eq!(t.poll(LoopStep::Wait, 6, 400), IdlePoll::Paused);
    match t.poll(LoopStep::Proceed, 9, 400) {
        IdlePoll::Sampled { transition, is_idle, .. } => {
            assert!(is_idle);
            assert_eq!(transition, None);
        }
        other => panic!("unexpected {:?}", other),
    }
    assert_eq!(t.poll(LoopStep::Terminate, 12, 400), IdlePoll::Stopped);
}

#[test]
fn large_gap_is_a_wake() {
    let mut t = IdleTracker::new(300, 3, 100);
    t.poll(LoopStep::Proceed, 103, 10);
    assert_eq!(t.check_time_gap(112), None);
    assert_eq!(t.check_time_gap(122), Some(10));
    match t.poll(LoopStep::Proceed, 1_000, 500) {
        IdlePoll::Sampled { wake_gap, transition, .. } => {
            assert_eq!(wake_gap, Some(878));
            assert_eq!(transition, None);
        }
        other => panic!("unexpected {:?}", other),
    }
}

#[test]
fn focus_a_b_a_gives_two_closed_one_open_three_events() {
    let mut f = FocusTracker::new(ProductivityClassifier::new());
    let mut events: Outbox<(String, String)> = Outbox::new();
    let mut attempted = 0;
    for (now, name) in [(100i64, "A"), (101, "B"), (102, "A")] {
        match f.poll(LoopStep::Proceed, now, Some(app(name, name)), false) {
            FocusOutcome::Changed(e) => {
                attempted += 1;
                assert_eq!(e.app_name, name);
                assert_eq!(e.timestamp, now);
                let delivered = name == "B";
                events.deliver_or_queue(("app_focus".to_string(), e.app_name.clone()), delivered, now);
            }
            other => panic!("unexpected {:?}", other),
        }
    }
    assert_eq!(attempted, 3);
    let usage = f.usage();
    let hist = usage.get_session_history();
    assert_eq!(hist.len(), 2);
    assert_eq!(hist[0].app_name, "A");
    assert_eq!(hist[0].duration_seconds, 1);
    assert!(!hist[0].is_active);
    assert_eq!(hist[1].app_name, "B");
    assert_eq!(hist[1].end_time, Some(102));
    let cur = usage.get_current_session().unwrap();
    assert_eq!(cur.app_name, "A");
    assert!(cur.is_active);
    assert_eq!(cur.start_time, 102);
    let ids = events.drain_candidates(10);
    assert_eq!(ids.len(), 2);
    for id in ids {
        let item = events.get(id).unwrap();
        assert_eq!(item.retry_count, 0);
        assert!(!item.processed);
        assert_eq!(item.payload.0, "app_focus");
    }
    assert!(f.take_heartbeat_trigger());
    assert!(!f.take_heartbeat_trigger());
}

#[test]
fn focus_same_app_only_refreshes_idle() {
    let mut f = FocusTracker::new(ProductivityClassifier::with_default_rules());
    match f.poll(LoopStep::Proceed, 10, Some(app("code.exe", "code.exe")), false) {
        FocusOutcome::Changed(e) => assert_eq!(e.category, ProductivityCategory::PRODUCTIVE),
        other => panic!("unexpected {:?}", other),
    }
    assert!(matches!(f.poll(LoopStep::Proceed, 12, Some(app("code.exe", "code.exe")), true), FocusOutcome::Unchanged));
    assert!(f.usage().get_current_session().unwrap().is_idle);
    assert!(matches!(f.poll(LoopStep::Proceed, 13, None, true), FocusOutcome::NoApp));
    assert!(matches!(f.poll(LoopStep::Wait, 14, Some(app("x", "y")), true), FocusOutcome::Paused));
    assert_eq!(f.usage().get_session_history().len(), 0);
    assert!(matches!(f.poll(LoopStep::Terminate, 20, None, true), FocusOutcome::Stopped));
    assert!(f.usage().get_current_session().is_none());
    assert_eq!(f.usage().get_session_history()[0].duration_seconds, 10);
}

#[test]
fn replacing_rules_changes_classification() {
    let mut f = FocusTracker::new(ProductivityClassifier::with_default_rules());
    f.replace_rules(vec![AppRule {
        matcher_type: "EXACT".to_string(),
        value: "code.exe".to_string(),
        category: ProductivityCategory::UNPRODUCTIVE,
        priority: 1,
        is_active: true,
    }]);
    assert_eq!(f.classifier().get_rules().len(), 1);
    match f.poll(LoopStep::Proceed, 10, Some(app("code.exe", "code.exe")), false) {
        FocusOutcome::Changed(e) => assert_eq!(e.category, ProductivityCategory::UNPRODUCTIVE),
        other => panic!("unexpected {:?}", other),
    }
}

#[test]
fn session_durations_and_totals() {
    let mut t = AppUsageTracker::new();
    assert!(!t.end_current_session(5));
    assert!(!t.start_app_session(100, "ide".to_string(), "ide".to_string(), None, ProductivityCategory::PRODUCTIVE, false));
    assert!(t.start_app_session(160, "game".to_string(), "game".to_string(), Some("t".to_string()), ProductivityCategory::UNPRODUCTIVE, false));
    t.update_current_session(true);
    assert!(t.end_current_session(190));
    assert_eq!(t.get_totals(), (60, 0, 0, 30));
    let h = t.get_session_history();
    assert_eq!(h[0].end_time, Some(160));
    assert_eq!(h[0].duration_seconds, 60);
    assert_eq!(h[1].duration_seconds, 30);
    assert!(h.iter().all(|s| !s.is_active));
}

#[test]
fn wake_closes_session_as_idle_and_reset_clears() {
    let mut t = AppUsageTracker::new();
    t.start_app_session(0, "a".to_string(), "a".to_string(), None, ProductivityCategory::NEUTRAL, false);
    assert!(t.handle_system_wake(500));
    assert!(t.get_current_session().is_none());
    assert!(t.get_session_history()[0].is_idle);
    assert_eq!(t.get_totals(), (0, 0, 0, 500));
    t.start_app_session(600, "b".to_string(), "b".to_string(), None, ProductivityCategory::NEUTRAL, false);
    let closed = t.reset_tracker(650).unwrap();
    assert_eq!(closed.duration_seconds, 50);
    assert!(!closed.is_active);
    assert_eq!(t.get_session_history().len(), 0);
    assert_eq!(t.get_totals(), (0, 0, 0, 0));
}

#[test]
fn negative_duration_when_clock_goes_back() {
    let mut t = AppUsageTracker::new();
    t.start_app_session(MAX_TIMESTAMP, "a".to_string(), "a".to_string(), None, ProductivityCategory::NEUTRAL, false);
    t.end_current_session(-MAX_TIMESTAMP);
    assert_eq!(t.get_session_history()[0].duration_seconds, -2 * MAX_TIMESTAMP);
}

#[test]
fn outbox_retry_budget() {
    let mut q: Outbox<String> = Outbox::new();
    let a = q.enqueue("a".to_string(), 1).unwrap();
    let b = q.enqueue("b".to_string(), 2).unwrap();
    assert_eq!(q.drain_candidates(10), vec![a, b]);
    assert_eq!(q.drain_candidates(1), vec![a]);
    for k in 1..=DEFAULT_MAX_RETRIES {
        q.mark_failed(a);
        assert_eq!(q.get(a).unwrap().retry_count, k);
    }
    assert_eq!(q.drain_candidates(10), vec![b]);
    q.mark_failed(a);
    assert_eq!(q.get(a).unwrap().retry_count, DEFAULT_MAX_RETRIES + 1);
    assert_eq!(q.drain_candidates(10), vec![b]);
    q.record_attempt(b, true);
    q.mark_processed(b);
    assert!(q.get(b).unwrap().processed);
    assert_eq!(q.drain_candidates(10), Vec::<u64>::new());
    assert_eq!(q.len(), 2);
    assert!(q.get(99).is_none());
}

#[test]
fn outbox_drain_needs_permission_and_connectivity() {
    let mut q: Outbox<u8> = Outbox::new();
    for k in 0..12u8 {
        q.enqueue(k, k as i64);
    }
    assert_eq!(q.plan_drain(LoopStep::Proceed, true).len(), 10);
    assert!(q.plan_drain(LoopStep::Proceed, false).is_empty());
    assert!(q.plan_drain(LoopStep::Wait, true).is_empty());
    assert!(q.plan_drain(LoopStep::Terminate, true).is_empty());
    assert_eq!(q.deliver_or_queue(9, true, 50), None);
    assert_eq!(q.deliver_or_queue(9, false, 50), Some(13));
}

#[test]
fn run_condition_requires_everything() {
    let mut h = ServiceHandle::new();
    assert_eq!(h.loop_step(true, true), LoopStep::Terminate);
    h.start_services();
    assert!(h.should_services_run(true, true));
    assert!(!h.should_services_run(false, true));
    assert!(!h.should_services_run(true, false));
    assert_eq!(h.loop_step(true, false), LoopStep::Wait);
    h.pause_services();
    assert!(h.is_services_paused());
    assert_eq!(h.loop_step(true, true), LoopStep::Wait);
    h.resume_services();
    assert_eq!(h.loop_step(true, true), LoopStep::Proceed);
    h.stop_services();
    assert!(!h.is_services_running());
    assert_eq!(h.loop_step(true, true), LoopStep::Terminate);
    let mut s = BackgroundServiceState::new();
    s.heartbeat_running = true;
    s.last_heartbeat = Some(5);
    h.update_service_state(s);
    assert_eq!(h.get_service_state(), s);
}

#[test]
fn heartbeat_trigger_coalesces_and_respects_run_condition() {
    let mut t = HeartbeatTrigger::new();
    assert!(!t.on_wake(false));
    t.trigger_immediate_heartbeat();
    t.trigger_immediate_heartbeat();
    assert!(t.on_wake(false));
    assert!(!t.on_wake(false));
    t.trigger_immediate_heartbeat();
    assert!(!t.should_send(LoopStep::Wait, true));
    assert!(!t.take());
    assert!(t.should_send(LoopStep::Proceed, true));
}

#[test]
fn heartbeat_snapshot_totals() {
    let app = CurrentApp { name: "n".to_string(), app_id: "i".to_string(), window_title: None };
    let h = compose_heartbeat(1_000, 10, 300, Some(app), Some(400), 50, 20, false);
    assert!(!h.is_idle);
    assert_eq!(h.status(), "active");
    assert_eq!(h.total_session_time_seconds, 600);
    assert_eq!(h.active_time_today_seconds, 650);
    assert_eq!(h.idle_time_today_seconds, 20);
    let idle = compose_heartbeat(1_000, 300, 300, None, Some(400), 50, 20, true);
    assert!(idle.is_idle);
    assert_eq!(idle.idle_time_today_seconds, 620);
    assert_eq!(idle.active_time_today_seconds, 50);
    let none = compose_heartbeat(1_000, 0, 300, None, None, 50, 20, false);
    assert_eq!(none.session_start_time, 1_000);
    assert_eq!(none.total_session_time_seconds, 0);
    assert_eq!(none.active_time_today_seconds, 0);
    assert_eq!(get_today_time_totals(100, 30), (70, 30));
    assert_eq!(get_today_time_totals(10, 30), (0, 30));
}

#[test]
fn power_state_sleep_and_wake() {
    let mut p = PowerState::init(1_000);
    assert_eq!(p.get_last_activity_timestamp(), 1_000);
    assert_eq!(p.detect_time_gap(1_600), None);
    assert_eq!(p.detect_time_gap(1_601), Some(601));
    assert_eq!(p.handle_system_wake(0, 2_000), None);
    assert!(p.handle_system_sleep(2_000));
    assert!(!p.handle_system_sleep(2_100));
    assert!(p.is_system_sleeping());
    assert_eq!(p.handle_system_wake(0, 2_500), Some(500));
    assert!(!p.is_system_sleeping());
    assert_eq!(p.handle_system_wake(42, 2_600), Some(42));
    p.update_last_activity(3_000);
    p.mark_sleep_start(3_000);
    assert_eq!(p.mark_wake_up(2_000), 0);
}

#[test]
fn agent_self_detection() {
    assert!(is_trackex_agent("TrackEx Agent", "x", None));
    assert!(is_trackex_agent("x", "COM.TRACKEX.AGENT.helper", None));
    assert!(is_trackex_agent("x", "y", Some("  TrackEx \n")));
    assert!(!is_trackex_agent("Cursor", "cursor.exe", Some("trackex-desktop-agent - Cursor")));
}

#[test]
fn intervals_and_state() {
    assert_eq!(get_app_focus_interval(false), 2);
    assert_eq!(get_app_focus_interval(true), 1);
    assert_eq!(get_heartbeat_interval(false), 10);
    assert_eq!(get_heartbeat_interval(true), 3);
    assert_eq!(get_job_polling_interval(false), 10);
    assert_eq!(get_job_polling_interval(true), 5);
    let mut s = AppState::new();
    assert!(!s.is_authenticated());
    s.device_token = Some(String::new());
    assert!(!s.is_authenticated());
    s.device_token = Some("tok".to_string());
    assert!(s.is_authenticated());
    assert_eq!(s.get_device_token(), Ok("tok".to_string()));
    s.device_token = None;
    assert_eq!(s.get_device_token(), Err(TokenError::Missing));
    s.device_token = Some(String::new());
    assert_eq!(s.get_device_token(), Err(TokenError::Empty));
    assert_eq!(s.get_server_url(), "https://www.trackex.app");
    s.sync_device_token_to_global(
        "t".to_string(),
        "d".to_string(),
        "e@x".to_string(),
        "http://localhost:3000".to_string(),
        "emp".to_string(),
    );
    assert_eq!(s.get_server_url(), "http://localhost:3000");
    assert!(s.is_authenticated());
    let r = ReportGenerator::new("e".to_string(), "d".to_string());
    assert_eq!(r.device_id, "d");
}
