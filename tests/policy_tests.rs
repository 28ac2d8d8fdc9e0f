use trackex_agent::logging::RemoteLoggingConfig;
use trackex_agent::policy::{get_default_allowlist_patterns, should_use_domain_only, PolicyConfig};

#[test]
fn test_default_policy_config() {
    let config = PolicyConfig::default();

    assert!(!config.screenshot_enabled);
    assert_eq!(config.screenshot_interval_minutes, 0);
    assert!(config.domain_only_mode);
    assert!(config.title_redaction_enabled);
    assert_eq!(config.idle_threshold_seconds, 300);
    assert!(!config.allowlist_patterns.is_empty());
}

#[test]
fn test_should_take_screenshot() {
    let mut config = PolicyConfig::default();

    assert!(!config.should_take_screenshot());

    config.screenshot_enabled = true;
    assert!(!config.should_take_screenshot());

    config.screenshot_interval_minutes = 15;
    assert!(config.should_take_screenshot());
}

#[test]
fn test_get_screenshot_interval_seconds() {
    let mut config = PolicyConfig::default();

    config.screenshot_interval_minutes = 15;
    assert_eq!(config.get_screenshot_interval_seconds(), 900);

    config.screenshot_interval_minutes = 30;
    assert_eq!(config.get_screenshot_interval_seconds(), 1800);

    config.screenshot_interval_minutes = 60;
    assert_eq!(config.get_screenshot_interval_seconds(), 3600);
}

#[test]
fn test_should_redact_title() {
    let mut config = PolicyConfig::default();

    assert!(config.should_redact_title("com.google.Chrome"));
    assert!(config.should_redact_title("com.apple.Safari"));

    assert!(config.should_redact_title("com.apple.TextEdit"));

    config.title_redaction_enabled = false;
    assert!(!config.should_redact_title("com.apple.TextEdit"));

    config.domain_only_mode = true;
    assert!(config.should_redact_title("com.google.Chrome"));

    config.domain_only_mode = false;
    assert!(!config.should_redact_title("com.google.Chrome"));
}

#[test]
fn test_policy_edge_cases() {
    let mut config = PolicyConfig::default();

    assert!(config.should_redact_title(""));

    assert!(config.should_redact_title("unknown.app.bundle"));

    config.screenshot_enabled = true;
    config.screenshot_interval_minutes = 0;
    assert!(!config.should_take_screenshot());
}

#[test]
fn privacy_test_browser_detection() {
    assert!(should_use_domain_only("com.google.Chrome"));
    assert!(should_use_domain_only("com.apple.Safari"));
    assert!(!should_use_domain_only("com.apple.TextEdit"));
}

#[test]
fn redaction_tests_test_browser_detection() {
    assert!(should_use_domain_only("com.google.Chrome"));
    assert!(should_use_domain_only("com.apple.Safari"));
    assert!(should_use_domain_only("com.mozilla.firefox"));
    assert!(should_use_domain_only("com.microsoft.Edge"));
    assert!(should_use_domain_only("com.brave.Browser"));
    assert!(should_use_domain_only("com.operasoftware.Opera"));

    assert!(!should_use_domain_only("com.apple.TextEdit"));
    assert!(!should_use_domain_only("com.microsoft.Word"));
    assert!(!should_use_domain_only("com.adobe.Photoshop"));
}

#[test]
fn browser_detection_on_process_names() {
    assert!(should_use_domain_only("CHROME.EXE"));
    assert!(should_use_domain_only("msedge.exe"));
    assert!(!should_use_domain_only("notepad.exe"));
    assert!(!should_use_domain_only(""));
}

#[test]
fn default_allowlist_has_three_patterns() {
    let p = get_default_allowlist_patterns();
    assert_eq!(p.len(), 3);
    assert_eq!(p[1], "^(Dashboard|Settings|Profile|Home|Login)");
}

#[test]
fn remote_logging_levels_are_lowercased_and_deduplicated() {
    let mut c = RemoteLoggingConfig::new();
    assert!(!c.should_send_remote_log("error"));
    c.update_remote_logging_config(
        true,
        false,
        vec!["ERROR".to_string(), "Warn".to_string(), "error".to_string(), "debug".to_string()],
    );
    let (enabled, debug, levels) = c.get_remote_logging_config();
    assert!(enabled);
    assert!(!debug);
    assert_eq!(levels, vec!["error".to_string(), "warn".to_string(), "debug".to_string()]);
    assert!(c.should_send_remote_log("Error"));
    assert!(c.should_send_remote_log("WARN"));
    assert!(!c.should_send_remote_log("debug"));
    assert!(!c.should_send_remote_log("info"));
    c.update_remote_logging_config(true, true, vec!["debug".to_string()]);
    assert!(c.should_send_remote_log("debug"));
}
