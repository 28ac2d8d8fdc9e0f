use trackex_agent::appnames::get_app_name_from_mapping;
use trackex_agent::clock::{clock_in, clock_out};
use trackex_agent::focus::{AppInfo, FocusTracker};
use trackex_agent::idle::IdleTracker;
use trackex_agent::lifecycle::{LoopStep, ServiceHandle};
use trackex_agent::productivity::ProductivityClassifier;
use trackex_agent::productivity::ProductivityCategory;
use trackex_agent::report::{rank_apps, ReportGenerator, TOP_APPS_LIMIT};
use trackex_agent::usage::{AppUsageSummary, AppUsageTracker};
use trackex_agent::worksession::WorkSessionStore;

fn s(name: &str, total: i64, idle: i64) -> AppUsageSummary {
    let mut x = AppUsageSummary::new(name.to_string(), format!("{}.exe", name));
    x.total_time = total;
    x.idle_time = idle;
    x
}

#[test]
fn summary_groups_sessions_by_application() {
    let mut t = AppUsageTracker::new();
    t.start_app_session(0, "a".to_string(), "a.exe".to_string(), None, ProductivityCategory::PRODUCTIVE, false);
    t.start_app_session(10, "b".to_string(), "b.exe".to_string(), None, ProductivityCategory::UNPRODUCTIVE, false);
    t.start_app_session(15, "a".to_string(), "a.exe".to_string(), None, ProductivityCategory::PRODUCTIVE, true);
    let l = t.get_app_usage_summary(45);
    assert_eq!(l.len(), 2);
    assert_eq!(l[0].app_name, "a");
    assert_eq!(l[0].session_count, 2);
    assert_eq!(l[0].total_time, 40);
    assert_eq!(l[0].idle_time, 30);
    assert_eq!(l[0].productive_time, 10);
    assert_eq!(l[1].app_name, "b");
    assert_eq!(l[1].unproductive_time, 5);
}

#[test]
fn summary_add_time_counts_by_category() {
    let mut x = AppUsageSummary::new("n".to_string(), "i".to_string());
    x.add_time(ProductivityCategory::NEUTRAL, 7, false);
    x.add_time(ProductivityCategory::NEUTRAL, 3, true);
    assert_eq!((x.total_time, x.neutral_time, x.idle_time, x.session_count), (10, 7, 3, 2));
    x.total_time = i64::MAX;
    x.add_time(ProductivityCategory::PRODUCTIVE, 5, false);
    assert_eq!(x.total_time, i64::MAX);
}

#[test]
fn daily_report_ranks_and_totals() {
    let g = ReportGenerator::new("emp".to_string(), "dev".to_string());
    let mut l = Vec::new();
    for k in 0..12 {
        l.push(s(&format!("app{}", k), (k % 5) as i64 * 10, 1));
    }
    let r = g.generate_daily_report(&l);
    assert_eq!(r.total_work_time, (0..12).map(|k| (k % 5) as i64 * 10).sum::<i64>());
    assert_eq!(r.idle_time, 12);
    assert_eq!(r.top_apps.len(), TOP_APPS_LIMIT);
    assert_eq!(r.top_apps[0].app_name, "app4");
    assert_eq!(r.top_apps[1].app_name, "app9");
    assert!(r.top_apps.windows(2).all(|w| w[0].total_time >= w[1].total_time));
    assert_eq!(g.employee_id, "emp");
}

#[test]
fn ranking_is_stable_for_ties() {
    let l = vec![s("x", 5, 0), s("y", 9, 0), s("z", 5, 0)];
    let r = rank_apps(&l, 10);
    let names: Vec<&str> = r.iter().map(|a| a.app_name.as_str()).collect();
    assert_eq!(names, vec!["y", "x", "z"]);
    assert!(rank_apps(&l, 0).is_empty());
}

#[test]
fn app_names_from_paths() {
    assert_eq!(get_app_name_from_mapping("C:\\Program Files\\Cursor\\Code.exe"), Some("Cursor".to_string()));
    assert_eq!(get_app_name_from_mapping("C:\\X\\CODE.EXE"), Some("Visual Studio Code".to_string()));
    assert_eq!(get_app_name_from_mapping("chrome_edge.exe"), Some("Microsoft Edge".to_string()));
    assert_eq!(get_app_name_from_mapping("C:\\Windows\\notepad.exe"), Some("Notepad".to_string()));
    assert_eq!(get_app_name_from_mapping("notepad++.exe"), Some("Notepad++".to_string()));
    assert_eq!(get_app_name_from_mapping("ApplicationFrameHost.exe"), None);
    assert_eq!(get_app_name_from_mapping("unknown.exe"), None);
}

#[test]
fn work_sessions_keep_one_active() {
    let mut w = WorkSessionStore::new();
    assert!(!w.is_session_active());
    assert_eq!(w.get_session_start_time(99), 99);
    let a = w.start_session(100).unwrap();
    let b = w.start_session(200).unwrap();
    assert_ne!(a, b);
    assert_eq!(w.get_current_session_id(), Some(b));
    assert_eq!(w.get_session_start_time(300), 200);
    assert_eq!(w.end_session(300), 1);
    assert_eq!(w.end_session(301), 0);
    assert!(w.get_current_session().is_none());
    assert_eq!(w.clear_all_active_sessions(302), 0);
}

#[test]
fn clock_out_stops_everything_and_closes_sessions() {
    let mut service = ServiceHandle::new();
    let mut work = WorkSessionStore::new();
    let mut idle = IdleTracker::new(300, 3, 0);
    let mut focus = FocusTracker::new(ProductivityClassifier::new());
    assert_eq!(clock_in(&mut service, &mut work, 10), Some(1));
    assert_eq!(service.loop_step(true, work.is_session_active()), LoopStep::Proceed);
    let app = AppInfo { name: "a".to_string(), app_id: "a".to_string(), window_title: None };
    focus.poll(LoopStep::Proceed, 20, Some(app), false);
    idle.observe(10);
    clock_out(&mut service, &mut work, &mut idle, &mut focus, 50);
    assert!(!service.is_services_running());
    assert!(!work.is_session_active());
    assert!(focus.usage().get_current_session().is_none());
    assert_eq!(focus.usage().get_session_history()[0].duration_seconds, 30);
    assert_eq!(idle.observe(400), None);
    assert_eq!(service.loop_step(true, true), LoopStep::Terminate);
}

#[test]
fn usage_report_lists_every_app_longest_first() {
    let g = ReportGenerator::new("emp".to_string(), "dev".to_string());
    let l = vec![s("a", 5, 0), s("b", 20, 3), s("c", 12, 0)];
    let r = g.generate_app_usage_report(&l, 100, 200);
    assert_eq!(r.total_active_time, 37);
    assert_eq!(r.total_idle_time, 3);
    let names: Vec<&str> = r.app_usage.iter().map(|e| e.app_name.as_str()).collect();
    assert_eq!(names, vec!["b", "c", "a"]);
    assert!(r.app_usage[0].is_idle);
    assert!(!r.app_usage[1].is_idle);
    assert_eq!(r.app_usage[2].start_time, 100);
    assert_eq!(r.app_usage[2].end_time, 200);
    assert_eq!(r.employee_id, "emp");
}
