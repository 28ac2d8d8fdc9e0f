//! The app-focus session tracker: one poll of the foreground application
//! closes and opens usage sessions, classifies, and yields the `app_focus`
//! event to deliver.
use vstd::prelude::*;

use crate::heartbeat::HeartbeatTrigger;
use crate::lifecycle::LoopStep;
use crate::productivity::{
    classify_spec, opt_view, with_rules, AppRule, ProductivityCategory, ProductivityClassifier,
};
use crate::text::{lower_of, occurs_at, same_text, starts_with, to_lowercase, trim, trimmed};
use crate::usage::{closed_at, valid_time, AppUsageSession, AppUsageTracker};

verus! {

/// The foreground application as the window probe reports it.
#[derive(Debug, Clone)]
pub struct AppInfo {
    pub name: String,
    pub app_id: String,
    pub window_title: Option<String>,
}

/// Whether the application is this agent itself: its lower-cased name or
/// executable is exactly one of the agent's, its bundle id starts with one of
/// the agent's, or its trimmed lower-cased title is exactly the agent's.
pub open spec fn is_agent_spec(name: Seq<char>, id: Seq<char>, title: Option<Seq<char>>) -> bool {
    let n = lower_of(name);
    let i = lower_of(id);
    ||| n == "trackex agent"@
    ||| n == "trackex-agent"@
    ||| n == "trackex_agent"@
    ||| i == "trackex-agent.exe"@
    ||| i == "trackex_agent.exe"@
    ||| i == "trackex-agent"@
    ||| i == "trackex_agent"@
    ||| occurs_at(i, "com.trackex.agent"@, 0)
    ||| occurs_at(i, "com.nextup.trackex"@, 0)
    ||| (title is Some && (lower_of(trimmed(title->0)) == "trackex agent"@ || lower_of(
        trimmed(title->0),
    ) == "trackex"@))
}

pub fn is_trackex_agent(app_name: &str, app_id: &str, window_title: Option<&str>) -> (r: bool)
    ensures
        r == is_agent_spec(app_name@, app_id@, opt_view(window_title)),
{
    let name_lower = to_lowercase(app_name);
    let n = name_lower.as_str();
    if same_text(n, "trackex agent") || same_text(n, "trackex-agent") || same_text(
        n,
        "trackex_agent",
    ) {
        return true;
    }
    let id_lower = to_lowercase(app_id);
    let i = id_lower.as_str();
    if same_text(i, "trackex-agent.exe") || same_text(i, "trackex_agent.exe") || same_text(
        i,
        "trackex-agent",
    ) || same_text(i, "trackex_agent") || starts_with(i, "com.trackex.agent") || starts_with(
        i,
        "com.nextup.trackex",
    ) {
        return true;
    }
    match window_title {
        Some(t) => {
            let title_lower = to_lowercase(trim(t));
            let tl = title_lower.as_str();
            same_text(tl, "trackex agent") || same_text(tl, "trackex")
        },
        None => false,
    }
}

/// An `app_focus` event: the newly focused application, stamped at `timestamp`.
#[derive(Debug, Clone)]
pub struct FocusEvent {
    pub app_name: String,
    pub app_id: String,
    pub window_title: Option<String>,
    pub category: ProductivityCategory,
    pub timestamp: i64,
}

/// The result of one poll.
#[derive(Debug, Clone)]
pub enum FocusOutcome {
    /// Services may not run: nothing was sampled.
    Paused,
    /// The services stopped: the open session, if any, was closed.
    Stopped,
    /// The probe saw no application.
    NoApp,
    /// The same application as before: only its idle flag was refreshed.
    Unchanged,
    /// A new application: the previous session was closed, a new one opened,
    /// and this event is to be delivered (or queued when delivery fails).
    Changed(FocusEvent),
}

fn copy_title(t: &Option<String>) -> (r: Option<String>)
    ensures
        r == *t,
{
    match t {
        Some(s) => Some(s.clone()),
        None => None,
    }
}

/// Owns the open session, the classifier and the heartbeat trigger.
pub struct FocusTracker {
    last_app: Option<(String, String)>,
    usage: AppUsageTracker,
    classifier: ProductivityClassifier,
    trigger: HeartbeatTrigger,
}

impl FocusTracker {
    /// The name and id of the application last seen.
    pub closed spec fn last_app(&self) -> Option<(Seq<char>, Seq<char>)> {
        match self.last_app {
            Some((n, i)) => Some((n@, i@)),
            None => None,
        }
    }

    pub closed spec fn usage_spec(&self) -> AppUsageTracker {
        self.usage
    }

    pub closed spec fn classifier_spec(&self) -> ProductivityClassifier {
        self.classifier
    }

    pub closed spec fn trigger_spec(&self) -> HeartbeatTrigger {
        self.trigger
    }

    pub open spec fn wf(&self) -> bool {
        self.usage_spec().wf() && self.classifier_spec().wf()
    }

    /// A tracker with no session, classifying with `classifier`.
    pub fn new(classifier: ProductivityClassifier) -> (r: Self)
        requires
            classifier.wf(),
        ensures
            r.wf(),
            r.last_app() is None,
            r.classifier_spec() == classifier,
            r.usage_spec().current() is None,
            r.usage_spec().history() == Seq::<AppUsageSession>::empty(),
            !r.trigger_spec().pending(),
    {
        FocusTracker {
            last_app: None,
            usage: AppUsageTracker::new(),
            classifier,
            trigger: HeartbeatTrigger::new(),
        }
    }

    /// The usage sessions.
    pub fn usage(&self) -> (r: &AppUsageTracker)
        ensures
            *r == self.usage_spec(),
    {
        &self.usage
    }

    /// The classifier.
    pub fn classifier(&self) -> (r: &ProductivityClassifier)
        ensures
            *r == self.classifier_spec(),
    {
        &self.classifier
    }

    /// Replaces every rule by `rules`, in one step: no classification sees
    /// a partly filled rule set.
    pub fn replace_rules(&mut self, rules: Vec<AppRule>)
        requires
            old(self).wf(),
        ensures
            final(self).wf(),
            final(self).classifier_spec()@.rules == with_rules(
                Seq::empty(),
                rules@.map_values(|x: AppRule| x@),
            ),
            final(self).classifier_spec()@.default_category == old(
                self,
            ).classifier_spec()@.default_category,
            final(self).usage_spec() == old(self).usage_spec(),
            final(self).last_app() == old(self).last_app(),
            final(self).trigger_spec() == old(self).trigger_spec(),
    {
        self.classifier.clear_rules();
        self.classifier.add_rules(rules);
    }

    /// Consumes a pending immediate-heartbeat request.
    pub fn take_heartbeat_trigger(&mut self) -> (r: bool)
        ensures
            r == old(self).trigger_spec().pending(),
            !final(self).trigger_spec().pending(),
            final(self).usage_spec() == old(self).usage_spec(),
            final(self).classifier_spec() == old(self).classifier_spec(),
            final(self).last_app() == old(self).last_app(),
    {
        self.trigger.take()
    }

    /// Whether the heartbeat emitter sends on this wake: only while services
    /// may run, on a tick or a pending request; the request is consumed.
    pub fn should_send_heartbeat(&mut self, step: LoopStep, interval_elapsed: bool) -> (r: bool)
        ensures
            r == (step == LoopStep::Proceed && (interval_elapsed || old(
                self,
            ).trigger_spec().pending())),
            !final(self).trigger_spec().pending(),
            final(self).usage_spec() == old(self).usage_spec(),
            final(self).classifier_spec() == old(self).classifier_spec(),
            final(self).last_app() == old(self).last_app(),
    {
        self.trigger.should_send(step, interval_elapsed)
    }

    /// Refreshes the idle flag of the open session, as the idle tracker
    /// observes it.
    pub fn update_idle(&mut self, is_idle: bool)
        requires
            old(self).wf(),
        ensures
            final(self).wf(),
            final(self).usage_spec().history() == old(self).usage_spec().history(),
            final(self).usage_spec().totals() == old(self).usage_spec().totals(),
            final(self).usage_spec().current() == match old(self).usage_spec().current() {
                Some(c) => Some(AppUsageSession { is_idle, ..c }),
                None => None,
            },
            final(self).classifier_spec() == old(self).classifier_spec(),
            final(self).last_app() == old(self).last_app(),
            final(self).trigger_spec() == old(self).trigger_spec(),
    {
        self.usage.update_current_session(is_idle);
    }

    /// After a suspend: the open session is closed at `now` as idle, and the
    /// next application seen opens a new one.  Returns whether a session was
    /// closed.
    pub fn handle_system_wake(&mut self, now: i64) -> (r: bool)
        requires
            old(self).wf(),
            valid_time(now),
        ensures
            final(self).wf(),
            r == old(self).usage_spec().current() is Some,
            final(self).usage_spec().current() is None,
            final(self).usage_spec().history() == match old(self).usage_spec().current() {
                Some(c) => old(self).usage_spec().history().push(
                    closed_at(AppUsageSession { is_idle: true, ..c }, now),
                ),
                None => old(self).usage_spec().history(),
            },
            final(self).last_app() is None,
            final(self).classifier_spec() == old(self).classifier_spec(),
            final(self).trigger_spec() == old(self).trigger_spec(),
    {
        self.last_app = None;
        self.usage.handle_system_wake(now)
    }

    /// One poll of the foreground application at `now`.
    ///
    /// While services may run and an application is seen: if its name or id differs
    /// from the last one, the open session is closed at `now`, the
    /// application is classified, a session opens for it with the current
    /// idle flag, an immediate heartbeat is asked for and the `app_focus`
    /// event is returned; otherwise only the idle flag of the open session
    /// is refreshed.  Otherwise nothing is sampled; once the
    /// services are stopped the open session is closed at `now`.
    pub fn poll(&mut self, step: LoopStep, now: i64, app: Option<AppInfo>, is_idle: bool) -> (r:
        FocusOutcome)
        requires
            old(self).wf(),
            valid_time(now),
        ensures
            final(self).wf(),
            final(self).classifier_spec() == old(self).classifier_spec(),
            step == LoopStep::Wait ==> r is Paused && final(self).usage_spec() == old(
                self,
            ).usage_spec() && final(self).last_app() == old(self).last_app()
                && final(self).trigger_spec() == old(self).trigger_spec(),
            step == LoopStep::Terminate ==> {
                &&& r is Stopped
                &&& final(self).usage_spec().current() is None
                &&& final(self).usage_spec().history() == match old(self).usage_spec().current() {
                    Some(c) => old(self).usage_spec().history().push(closed_at(c, now)),
                    None => old(self).usage_spec().history(),
                }
            },
            step == LoopStep::Proceed && app is None ==> r is NoApp && final(self).usage_spec()
                == old(self).usage_spec() && final(self).last_app() == old(self).last_app(),
            step == LoopStep::Proceed && app is Some && old(self).last_app() == Some(
                (app->0.name@, app->0.app_id@),
            ) ==> {
                &&& r is Unchanged
                &&& final(self).last_app() == old(self).last_app()
                &&& final(self).usage_spec().history() == old(self).usage_spec().history()
                &&& final(self).usage_spec().totals() == old(self).usage_spec().totals()
                &&& final(self).usage_spec().current() == match old(
                    self,
                ).usage_spec().current() {
                    Some(c) => Some(AppUsageSession { is_idle, ..c }),
                    None => None,
                }
            },
            step == LoopStep::Proceed && app is Some && old(self).last_app() != Some(
                (app->0.name@, app->0.app_id@),
            ) ==> {
                let a = app->0;
                let category = classify_spec(
                    old(self).classifier_spec()@.rules,
                    old(self).classifier_spec()@.default_category,
                    a.name@,
                    a.app_id@,
                    match a.window_title {
                        Some(t) => Some(t@),
                        None => None,
                    },
                );
                &&& r == FocusOutcome::Changed(
                    FocusEvent {
                        app_name: a.name,
                        app_id: a.app_id,
                        window_title: a.window_title,
                        category,
                        timestamp: now,
                    },
                )
                &&& final(self).last_app() == Some((a.name@, a.app_id@))
                &&& final(self).trigger_spec().pending()
                &&& final(self).usage_spec().current() == Some(
                    AppUsageSession {
                        id: None,
                        app_name: a.name,
                        app_id: a.app_id,
                        window_title: a.window_title,
                        category,
                        start_time: now,
                        end_time: None,
                        duration_seconds: 0,
                        is_idle,
                        is_active: true,
                    },
                )
                &&& final(self).usage_spec().history() == match old(
                    self,
                ).usage_spec().current() {
                    Some(c) => old(self).usage_spec().history().push(closed_at(c, now)),
                    None => old(self).usage_spec().history(),
                }
            },
    {
        match step {
            LoopStep::Wait => FocusOutcome::Paused,
            LoopStep::Terminate => {
                self.usage.end_current_session(now);
                FocusOutcome::Stopped
            },
            LoopStep::Proceed => match app {
                None => FocusOutcome::NoApp,
                Some(a) => {
                    let same = match &self.last_app {
                        Some((n, i)) => same_text(n.as_str(), a.name.as_str()) && same_text(
                            i.as_str(),
                            a.app_id.as_str(),
                        ),
                        None => false,
                    };
                    if same {
                        self.usage.update_current_session(is_idle);
                        FocusOutcome::Unchanged
                    } else {
                        self.trigger.trigger_immediate_heartbeat();
                        self.usage.end_current_session(now);
                        let title_ref: Option<&str> = match &a.window_title {
                            Some(t) => Some(t.as_str()),
                            None => None,
                        };
                        assert(opt_view(title_ref) == match a.window_title {
                            Some(t) => Some(t@),
                            None => None::<Seq<char>>,
                        });
                        let category = self.classifier.classify_app(
                            a.name.as_str(),
                            a.app_id.as_str(),
                            title_ref,
                        );
                        self.usage.start_app_session(
                            now,
                            a.name.clone(),
                            a.app_id.clone(),
                            copy_title(&a.window_title),
                            category,
                            is_idle,
                        );
                        self.last_app = Some((a.name.clone(), a.app_id.clone()));
                        FocusOutcome::Changed(
                            FocusEvent {
                                app_name: a.name,
                                app_id: a.app_id,
                                window_title: a.window_title,
                                category,
                                timestamp: now,
                            },
                        )
                    }
                },
            },
        }
    }
}

} // verus!
