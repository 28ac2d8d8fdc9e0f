use trackex_agent::productivity::{
    extract_domain_from_title, AppRule, ProductivityCategory, ProductivityClassifier,
};
use trackex_agent::rules::{to_local_rule, AppRulesManager, RemoteAppRule};

fn rule(kind: &str, value: &str, category: ProductivityCategory, priority: i32) -> AppRule {
    AppRule {
        matcher_type: kind.to_string(),
        value: value.to_string(),
        category,
        priority,
        is_active: true,
    }
}

#[test]
fn test_exact_match() {
    let classifier = ProductivityClassifier::with_default_rules();

    let category = classifier.classify_app("code.exe", "C:\\Program Files\\Microsoft VS Code\\Code.exe", None);
    assert_eq!(category, ProductivityCategory::PRODUCTIVE);

    let category = classifier.classify_app("steam.exe", "C:\\Program Files (x86)\\Steam\\steam.exe", None);
    assert_eq!(category, ProductivityCategory::UNPRODUCTIVE);
}

#[test]
fn test_glob_match() {
    let mut classifier = ProductivityClassifier::new();
    classifier.add_rule(AppRule {
        matcher_type: "GLOB".to_string(),
        value: "*browser*.exe".to_string(),
        category: ProductivityCategory::NEUTRAL,
        priority: 50,
        is_active: true,
    });

    let category = classifier.classify_app("chrome.exe", "C:\\Program Files\\Google\\Chrome\\Application\\chrome.exe", None);
    assert_eq!(category, ProductivityCategory::NEUTRAL);
}

#[test]
fn test_priority_order() {
    let mut classifier = ProductivityClassifier::new();

    classifier.add_rule(AppRule {
        matcher_type: "EXACT".to_string(),
        value: "chrome.exe".to_string(),
        category: ProductivityCategory::NEUTRAL,
        priority: 50,
        is_active: true,
    });

    classifier.add_rule(AppRule {
        matcher_type: "EXACT".to_string(),
        value: "chrome.exe".to_string(),
        category: ProductivityCategory::PRODUCTIVE,
        priority: 100,
        is_active: true,
    });

    let category = classifier.classify_app("chrome.exe", "chrome.exe", None);
    assert_eq!(category, ProductivityCategory::PRODUCTIVE);
}

#[test]
fn priority_wins_in_either_insertion_order() {
    let mut a = ProductivityClassifier::new();
    a.add_rule(rule("EXACT", "chrome.exe", ProductivityCategory::PRODUCTIVE, 100));
    a.add_rule(rule("EXACT", "chrome.exe", ProductivityCategory::UNPRODUCTIVE, 50));
    assert_eq!(a.classify_app("chrome.exe", "x", None), ProductivityCategory::PRODUCTIVE);
    let mut b = ProductivityClassifier::new();
    b.add_rule(rule("EXACT", "chrome.exe", ProductivityCategory::UNPRODUCTIVE, 50));
    b.add_rule(rule("EXACT", "chrome.exe", ProductivityCategory::PRODUCTIVE, 100));
    assert_eq!(b.classify_app("chrome.exe", "x", None), ProductivityCategory::PRODUCTIVE);
}

#[test]
fn equal_priorities_keep_insertion_order() {
    let mut c = ProductivityClassifier::new();
    c.add_rule(rule("EXACT", "a.exe", ProductivityCategory::UNPRODUCTIVE, 10));
    c.add_rule(rule("EXACT", "a.exe", ProductivityCategory::PRODUCTIVE, 10));
    c.add_rule(rule("EXACT", "b.exe", ProductivityCategory::NEUTRAL, 20));
    let prios: Vec<i32> = c.get_rules().iter().map(|r| r.priority).collect();
    assert_eq!(prios, vec![20, 10, 10]);
    assert_eq!(c.get_rules()[1].category, ProductivityCategory::UNPRODUCTIVE);
    assert_eq!(c.classify_app("A.EXE", "x", None), ProductivityCategory::UNPRODUCTIVE);
}

#[test]
fn exact_match_ignores_ascii_case_and_checks_title() {
    let mut c = ProductivityClassifier::new();
    c.add_rule(rule("EXACT", "Report.xlsx", ProductivityCategory::PRODUCTIVE, 1));
    assert_eq!(c.classify_app("excel", "excel.exe", Some("REPORT.XLSX")), ProductivityCategory::PRODUCTIVE);
    assert_eq!(c.classify_app("excel", "excel.exe", None), ProductivityCategory::NEUTRAL);
}

#[test]
fn inactive_rules_are_skipped_and_default_applies() {
    let mut c = ProductivityClassifier::new();
    let mut r = rule("EXACT", "game.exe", ProductivityCategory::UNPRODUCTIVE, 100);
    r.is_active = false;
    c.add_rule(r);
    assert_eq!(c.classify_app("game.exe", "game.exe", None), ProductivityCategory::NEUTRAL);
    c.set_default_category(ProductivityCategory::PRODUCTIVE);
    assert_eq!(c.classify_app("game.exe", "game.exe", None), ProductivityCategory::PRODUCTIVE);
}

#[test]
fn glob_wildcards_are_anchored() {
    let mut c = ProductivityClassifier::new();
    c.add_rule(rule("GLOB", "*browser*.exe", ProductivityCategory::UNPRODUCTIVE, 50));
    assert_eq!(c.classify_app("mybrowser2.exe", "x", None), ProductivityCategory::UNPRODUCTIVE);
    assert_eq!(c.classify_app("mybrowser2.exe.bak", "x", None), ProductivityCategory::NEUTRAL);
    assert_eq!(c.classify_app("browserXexe", "x", None), ProductivityCategory::NEUTRAL);
    let mut q = ProductivityClassifier::new();
    q.add_rule(rule("GLOB", "app?.exe", ProductivityCategory::PRODUCTIVE, 1));
    assert_eq!(q.classify_app("app1.exe", "x", None), ProductivityCategory::PRODUCTIVE);
    assert_eq!(q.classify_app("app12.exe", "x", None), ProductivityCategory::NEUTRAL);
}

#[test]
fn regex_rules_and_invalid_patterns() {
    let mut c = ProductivityClassifier::new();
    c.add_rule(rule("REGEX", "([", ProductivityCategory::UNPRODUCTIVE, 100));
    c.add_rule(rule("REGEX", "^jet.*ide$", ProductivityCategory::PRODUCTIVE, 10));
    assert_eq!(c.classify_app("jetbrains ide", "x", None), ProductivityCategory::PRODUCTIVE);
    assert_eq!(c.classify_app("([", "([", None), ProductivityCategory::NEUTRAL);
}

#[test]
fn domain_rules_read_the_leading_title_token() {
    let mut c = ProductivityClassifier::new();
    c.add_rule(rule("DOMAIN", "github.com", ProductivityCategory::PRODUCTIVE, 90));
    assert_eq!(
        c.classify_app("chrome.exe", "chrome.exe", Some("GitHub.com - Google Chrome")),
        ProductivityCategory::PRODUCTIVE
    );
    assert_eq!(
        c.classify_app("chrome.exe", "chrome.exe", Some("GitHub - Google Chrome")),
        ProductivityCategory::NEUTRAL
    );
    assert_eq!(c.classify_app("github.com", "github.com", None), ProductivityCategory::NEUTRAL);
    assert_eq!(
        c.classify_app("chrome.exe", "chrome.exe", Some(" github.com")),
        ProductivityCategory::NEUTRAL
    );
}

#[test]
fn domain_extraction_lowercases_first_token() {
    assert_eq!(extract_domain_from_title("YouTube - Google Chrome"), Some("youtube".to_string()));
    assert_eq!(extract_domain_from_title("Stack\u{00A0}Overflow"), Some("stack".to_string()));
    assert_eq!(extract_domain_from_title("-x"), None);
    assert_eq!(extract_domain_from_title(""), None);
}

#[test]
fn default_rules_are_sorted_and_complete() {
    let c = ProductivityClassifier::with_default_rules();
    let rules = c.get_rules();
    assert_eq!(rules.len(), 35);
    assert!(rules.windows(2).all(|w| w[0].priority >= w[1].priority));
    assert_eq!(rules[0].value, "code.exe");
    assert_eq!(c.classify_app("x", "y", Some("reddit.com|front")), ProductivityCategory::NEUTRAL);
    assert_eq!(c.classify_app("x", "y", Some("reddit.com - front")), ProductivityCategory::UNPRODUCTIVE);
}

#[test]
fn clear_rules_empties_the_set() {
    let mut c = ProductivityClassifier::with_default_rules();
    c.clear_rules();
    assert!(c.get_rules().is_empty());
    assert_eq!(c.classify_app("steam.exe", "steam.exe", None), ProductivityCategory::NEUTRAL);
}

#[test]
fn category_labels_round_trip() {
    for c in [ProductivityCategory::PRODUCTIVE, ProductivityCategory::NEUTRAL, ProductivityCategory::UNPRODUCTIVE] {
        assert_eq!(ProductivityCategory::from_label(c.as_str()), c);
    }
    assert_eq!(ProductivityCategory::from_label("whatever"), ProductivityCategory::NEUTRAL);
    assert_eq!(ProductivityCategory::default(), ProductivityCategory::NEUTRAL);
}

fn remote(kind: &str, value: &str, category: &str, priority: i32) -> RemoteAppRule {
    RemoteAppRule {
        id: "r1".to_string(),
        matcher_type: kind.to_string(),
        value: value.to_string(),
        category: category.to_string(),
        priority,
        is_active: true,
        created_at: "2024-01-01T00:00:00Z".to_string(),
        updated_at: "2024-01-01T00:00:00Z".to_string(),
    }
}

#[test]
fn remote_rules_replace_the_set() {
    let mut m = AppRulesManager::new();
    assert!(m.should_sync(1_000));
    assert_eq!(m.get_rules().len(), 35);
    m.apply_remote_rules(
        vec![remote("EXACT", "vim", "PRODUCTIVE", 5), remote("GLOB", "*game*", "bogus", 7)],
        1_000,
    );
    assert_eq!(m.get_rules().len(), 2);
    assert_eq!(m.get_rules()[0].category, ProductivityCategory::NEUTRAL);
    assert_eq!(m.get_rules()[1].value, "vim");
    assert!(!m.should_sync(1_000 + 3_599));
    assert!(m.should_sync(1_000 + 3_600));
    assert_eq!(m.classifier().classify_app("steam.exe", "steam.exe", None), ProductivityCategory::NEUTRAL);
}

#[test]
fn remote_rule_conversion() {
    let r = to_local_rule(remote("DOMAIN", "x.com", "UNPRODUCTIVE", 3));
    assert_eq!(r.matcher_type, "DOMAIN");
    assert_eq!(r.category, ProductivityCategory::UNPRODUCTIVE);
    assert_eq!(r.priority, 3);
}

#[test]
fn rule_statistics_count_each_kind() {
    let m = AppRulesManager::new();
    let s = m.get_rule_statistics();
    assert_eq!(s.total_rules, 35);
    assert_eq!(s.active_rules, 35);
    assert_eq!(s.productive_rules, 19);
    assert_eq!(s.neutral_rules, 1);
    assert_eq!(s.unproductive_rules, 15);
    assert_eq!(s.exact_matchers, 22);
    assert_eq!(s.glob_matchers, 1);
    assert_eq!(s.regex_matchers, 0);
    assert_eq!(s.domain_matchers, 12);
}
