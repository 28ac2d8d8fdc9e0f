//! Privacy policy: screenshots, window-title redaction and browser detection.
use vstd::prelude::*;
use vstd::string::*;

use crate::text::{contains, contains_text, lower_of, to_lowercase};

verus! {

/// The browser names looked for, case-insensitively, in a bundle id or
/// process name.
pub open spec fn browser_names() -> Seq<Seq<char>> {
    seq!["chrome"@, "firefox"@, "brave"@, "opera"@, "edge"@, "safari"@]
}

pub open spec fn is_browser(s: Seq<char>) -> bool {
    exists|i: int| 0 <= i < browser_names().len() && contains_text(lower_of(s), #[trigger] browser_names()[i])
}

/// Whether the application is a web browser, whose titles are reduced to
/// the site: its lower-cased bundle id or process name contains the name of
/// a common browser.
pub fn should_use_domain_only(bundle_id_or_process: &str) -> (r: bool)
    ensures
        r == is_browser(bundle_id_or_process@),
{
    let lower = to_lowercase(bundle_id_or_process);
    let l = lower.as_str();
    let r = contains(l, "chrome") || contains(l, "firefox") || contains(l, "brave") || contains(
        l,
        "opera",
    ) || contains(l, "edge") || contains(l, "safari");
    proof {
        if r {
            if contains_text(lower@, "chrome"@) {
                assert(contains_text(lower_of(bundle_id_or_process@), browser_names()[0]));
            } else if contains_text(lower@, "firefox"@) {
                assert(contains_text(lower_of(bundle_id_or_process@), browser_names()[1]));
            } else if contains_text(lower@, "brave"@) {
                assert(contains_text(lower_of(bundle_id_or_process@), browser_names()[2]));
            } else if contains_text(lower@, "opera"@) {
                assert(contains_text(lower_of(bundle_id_or_process@), browser_names()[3]));
            } else if contains_text(lower@, "edge"@) {
                assert(contains_text(lower_of(bundle_id_or_process@), browser_names()[4]));
            } else {
                assert(contains_text(lower_of(bundle_id_or_process@), browser_names()[5]));
            }
        }
    }
    r
}

/// The built-in allowlist: domain names, common safe screens, simple
/// "name - name" titles.
pub open spec fn default_allowlist() -> Seq<Seq<char>> {
    seq![
        "^[a-zA-Z0-9\\-\\.]+\\.[a-zA-Z]{2,}"@,
        "^(Dashboard|Settings|Profile|Home|Login)"@,
        "^\\w+\\s*-\\s*\\w+"@,
    ]
}

pub open spec fn texts_view(v: Seq<String>) -> Seq<Seq<char>> {
    v.map_values(|s: String| s@)
}

/// The built-in title allowlist patterns.
pub fn get_default_allowlist_patterns() -> (r: Vec<String>)
    ensures
        texts_view(r@) == default_allowlist(),
{
    let mut v: Vec<String> = Vec::new();
    v.push(String::from_str("^[a-zA-Z0-9\\-\\.]+\\.[a-zA-Z]{2,}"));
    v.push(String::from_str("^(Dashboard|Settings|Profile|Home|Login)"));
    v.push(String::from_str("^\\w+\\s*-\\s*\\w+"));
    assert(texts_view(v@) =~= default_allowlist());
    v
}

/// The privacy settings in force.
#[derive(Debug, Clone)]
pub struct PolicyConfig {
    pub screenshot_enabled: bool,
    /// Zero disables screenshots; otherwise the minutes between them.
    pub screenshot_interval_minutes: u32,
    pub domain_only_mode: bool,
    pub title_redaction_enabled: bool,
    pub idle_threshold_seconds: u64,
    pub allowlist_patterns: Vec<String>,
}

impl Default for PolicyConfig {
    /// No screenshots, browser titles reduced to the site, redaction on, an
    /// idle threshold of five minutes and the built-in allowlist.
    fn default() -> (r: Self)
        ensures
            !r.screenshot_enabled,
            r.screenshot_interval_minutes == 0,
            r.domain_only_mode,
            r.title_redaction_enabled,
            r.idle_threshold_seconds == 300,
            texts_view(r.allowlist_patterns@) == default_allowlist(),
    {
        PolicyConfig {
            screenshot_enabled: false,
            screenshot_interval_minutes: 0,
            domain_only_mode: true,
            title_redaction_enabled: true,
            idle_threshold_seconds: 300,
            allowlist_patterns: get_default_allowlist_patterns(),
        }
    }
}

impl PolicyConfig {
    /// Screenshots are taken when enabled with a non-zero interval.
    pub fn should_take_screenshot(&self) -> (r: bool)
        ensures
            r == (self.screenshot_enabled && self.screenshot_interval_minutes > 0),
    {
        self.screenshot_enabled && self.screenshot_interval_minutes > 0
    }

    /// The screenshot interval in seconds.
    pub fn get_screenshot_interval_seconds(&self) -> (r: u64)
        ensures
            r == self.screenshot_interval_minutes as u64 * 60,
    {
        (self.screenshot_interval_minutes as u64) * 60
    }

    /// Whether the title of the application `app_id` is redacted: a browser
    /// in domain-only mode always has its title reduced to the site; any other
    /// application exactly when redaction is on.
    pub fn should_redact_title(&self, app_id: &str) -> (r: bool)
        ensures
            r == ((self.domain_only_mode && is_browser(app_id@)) || self.title_redaction_enabled),
    {
        if self.domain_only_mode && should_use_domain_only(app_id) {
            return true;
        }
        self.title_redaction_enabled
    }
}

} // verus!
