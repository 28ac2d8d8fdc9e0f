//! Productivity classification of the foreground application by
//! priority-ordered matching rules.
use vstd::prelude::*;
use vstd::string::*;

use crate::pattern::{glob_regex, matches_glob, matches_regex, regex_hit};
use crate::text::{
    ascii_ci_eq, eq_ignore_ascii_case, is_white_space, lower_of, same_text, to_lowercase,
    white_space,
};

verus! {

#[allow(non_camel_case_types)]
#[derive(Debug, Clone, Copy, PartialEq, Eq, Structural)]
pub enum ProductivityCategory {
    PRODUCTIVE,
    NEUTRAL,
    UNPRODUCTIVE,
}

pub open spec fn category_label(c: ProductivityCategory) -> Seq<char> {
    match c {
        ProductivityCategory::PRODUCTIVE => "PRODUCTIVE"@,
        ProductivityCategory::NEUTRAL => "NEUTRAL"@,
        ProductivityCategory::UNPRODUCTIVE => "UNPRODUCTIVE"@,
    }
}

/// The category named by a label; anything unrecognised is neutral.
pub open spec fn category_of_label(s: Seq<char>) -> ProductivityCategory {
    if s == "PRODUCTIVE"@ {
        ProductivityCategory::PRODUCTIVE
    } else if s == "UNPRODUCTIVE"@ {
        ProductivityCategory::UNPRODUCTIVE
    } else {
        ProductivityCategory::NEUTRAL
    }
}

impl ProductivityCategory {
    /// The upper-case label of the category, as stored and sent.
    pub fn as_str(&self) -> (r: &'static str)
        ensures
            r@ == category_label(*self),
    {
        match self {
            ProductivityCategory::PRODUCTIVE => "PRODUCTIVE",
            ProductivityCategory::NEUTRAL => "NEUTRAL",
            ProductivityCategory::UNPRODUCTIVE => "UNPRODUCTIVE",
        }
    }

    /// Reads a label; an unknown one reads as neutral.
    pub fn from_label(s: &str) -> (r: ProductivityCategory)
        ensures
            r == category_of_label(s@),
    {
        if same_text(s, "PRODUCTIVE") {
            ProductivityCategory::PRODUCTIVE
        } else if same_text(s, "UNPRODUCTIVE") {
            ProductivityCategory::UNPRODUCTIVE
        } else {
            ProductivityCategory::NEUTRAL
        }
    }
}

impl Default for ProductivityCategory {
    fn default() -> (r: Self)
        ensures
            r == ProductivityCategory::NEUTRAL,
    {
        ProductivityCategory::NEUTRAL
    }
}

/// One classification rule.  `matcher_type` is one of `EXACT`, `GLOB`,
/// `REGEX` and `DOMAIN`; a rule of any other type matches nothing.
#[derive(Debug, Clone)]
pub struct AppRule {
    pub matcher_type: String,
    pub value: String,
    pub category: ProductivityCategory,
    pub priority: i32,
    pub is_active: bool,
}

pub struct RuleView {
    pub kind: Seq<char>,
    pub value: Seq<char>,
    pub category: ProductivityCategory,
    pub priority: i32,
    pub is_active: bool,
}

impl View for AppRule {
    type V = RuleView;

    open spec fn view(&self) -> RuleView {
        RuleView {
            kind: self.matcher_type@,
            value: self.value@,
            category: self.category,
            priority: self.priority,
            is_active: self.is_active,
        }
    }
}

pub open spec fn rule_view(
    kind: Seq<char>,
    value: Seq<char>,
    category: ProductivityCategory,
    priority: i32,
) -> RuleView {
    RuleView { kind, value, category, priority, is_active: true }
}

pub open spec fn opt_view(o: Option<&str>) -> Option<Seq<char>> {
    match o {
        Some(t) => Some(t@),
        None => None,
    }
}

/// A separator ends the leading token of a window title.
pub open spec fn separator(c: char) -> bool {
    c == '-' || white_space(c)
}

/// The characters of a title before its first separator.
pub open spec fn leading_token(t: Seq<char>) -> Seq<char>
    decreases t.len(),
{
    if t.len() == 0 || separator(t[0]) {
        Seq::empty()
    } else {
        seq![t[0]] + leading_token(t.drop_first())
    }
}

/// The site a browser title names: its leading token, lower-cased; none when
/// the title starts with a separator or is empty.
pub open spec fn title_domain(t: Seq<char>) -> Option<Seq<char>> {
    if leading_token(t).len() == 0 {
        None
    } else {
        Some(lower_of(leading_token(t)))
    }
}

/// Whether a rule's matcher accepts the application `name`, `id` and `title`.
pub open spec fn rule_matches(
    r: RuleView,
    name: Seq<char>,
    id: Seq<char>,
    title: Option<Seq<char>>,
) -> bool {
    if r.kind == "EXACT"@ {
        ascii_ci_eq(name, r.value) || ascii_ci_eq(id, r.value) || (title is Some && ascii_ci_eq(
            title->0,
            r.value,
        ))
    } else if r.kind == "GLOB"@ {
        regex_hit(glob_regex(r.value), name) || regex_hit(glob_regex(r.value), id) || (
        title is Some && regex_hit(glob_regex(r.value), title->0))
    } else if r.kind == "REGEX"@ {
        regex_hit(r.value, name) || regex_hit(r.value, id) || (title is Some && regex_hit(
            r.value,
            title->0,
        ))
    } else if r.kind == "DOMAIN"@ {
        title is Some && title_domain(title->0) is Some && ascii_ci_eq(
            title_domain(title->0)->0,
            r.value,
        )
    } else {
        false
    }
}

/// An active rule that matches the application.
#[verifier::opaque]
pub open spec fn decides(r: RuleView, name: Seq<char>, id: Seq<char>, title: Option<Seq<char>>) -> bool {
    r.is_active && rule_matches(r, name, id, title)
}

/// The category of the first active matching rule, or the default.
pub open spec fn classify_spec(
    rules: Seq<RuleView>,
    default: ProductivityCategory,
    name: Seq<char>,
    id: Seq<char>,
    title: Option<Seq<char>>,
) -> ProductivityCategory
    decreases rules.len(),
{
    if rules.len() == 0 {
        default
    } else if decides(rules[0], name, id, title) {
        rules[0].category
    } else {
        classify_spec(rules.drop_first(), default, name, id, title)
    }
}

/// Rules are held from the highest priority down.
pub open spec fn sorted_desc(rules: Seq<RuleView>) -> bool {
    forall|i: int, j: int|
        0 <= i < j < rules.len() ==> #[trigger] rules[i].priority >= #[trigger] rules[j].priority
}

/// How many leading rules have at least priority `p`.
pub open spec fn lead_count(rules: Seq<RuleView>, p: i32) -> nat
    decreases rules.len(),
{
    if rules.len() > 0 && rules[0].priority >= p {
        1 + lead_count(rules.drop_first(), p)
    } else {
        0
    }
}

/// A rule joins after every rule of higher or equal priority: among equal
/// priorities, the earlier added comes first.
pub open spec fn with_rule(rules: Seq<RuleView>, r: RuleView) -> Seq<RuleView> {
    rules.insert(lead_count(rules, r.priority) as int, r)
}

/// Rules added one after the other.
pub open spec fn with_rules(rules: Seq<RuleView>, added: Seq<RuleView>) -> Seq<RuleView>
    decreases added.len(),
{
    if added.len() == 0 {
        rules
    } else {
        with_rule(with_rules(rules, added.drop_last()), added.last())
    }
}

pub proof fn lemma_lead_count(rules: Seq<RuleView>, p: i32)
    ensures
        lead_count(rules, p) <= rules.len(),
        forall|i: int| 0 <= i < lead_count(rules, p) ==> rules[i].priority >= p,
        lead_count(rules, p) < rules.len() ==> rules[lead_count(rules, p) as int].priority < p,
    decreases rules.len(),
{
    if rules.len() > 0 && rules[0].priority >= p {
        lemma_lead_count(rules.drop_first(), p);
        assert forall|i: int| 0 <= i < lead_count(rules, p) implies rules[i].priority >= p by {
            if i > 0 {
                assert(rules[i] == rules.drop_first()[i - 1]);
            }
        }
    }
}

/// Adding a rule keeps the sequence ordered by priority.
pub proof fn lemma_with_rule_sorted(rules: Seq<RuleView>, r: RuleView)
    requires
        sorted_desc(rules),
    ensures
        sorted_desc(with_rule(rules, r)),
        with_rule(rules, r).len() == rules.len() + 1,
{
    lemma_lead_count(rules, r.priority);
    let k = lead_count(rules, r.priority) as int;
    let s = with_rule(rules, r);
    assert forall|i: int, j: int| 0 <= i < j < s.len() implies #[trigger] s[i].priority
        >= #[trigger] s[j].priority by {
        if i < k && j == k {
        } else if i < k && j > k {
            assert(s[j] == rules[j - 1]);
        } else if i == k && j > k {
            assert(s[j] == rules[j - 1]);
            assert(rules[k].priority < r.priority);
            assert(rules[k].priority >= rules[j - 1].priority || k == j - 1);
        } else if i > k {
            assert(s[i] == rules[i - 1]);
            assert(s[j] == rules[j - 1]);
        }
    }
}

pub proof fn lemma_with_rules_sorted(rules: Seq<RuleView>, added: Seq<RuleView>)
    requires
        sorted_desc(rules),
    ensures
        sorted_desc(with_rules(rules, added)),
    decreases added.len(),
{
    if added.len() > 0 {
        lemma_with_rules_sorted(rules, added.drop_last());
        lemma_with_rule_sorted(with_rules(rules, added.drop_last()), added.last());
    }
}

proof fn lemma_leading_token(t: Seq<char>, k: int)
    requires
        0 <= k <= t.len(),
        forall|j: int| 0 <= j < k ==> !separator(#[trigger] t[j]),
        k == t.len() || separator(t[k]),
    ensures
        leading_token(t) == t.take(k),
    decreases k,
{
    if k == 0 {
        assert(t.take(0) =~= Seq::<char>::empty());
    } else {
        let d = t.drop_first();
        assert forall|j: int| 0 <= j < k - 1 implies !separator(#[trigger] d[j]) by {
            assert(d[j] == t[j + 1]);
        }
        if k < t.len() {
            assert(d[k - 1] == t[k]);
        }
        lemma_leading_token(d, k - 1);
        assert(!separator(t[0]));
        assert(seq![t[0]] + d.take(k - 1) =~= t.take(k));
    }
}


/// The position of the first rule that decides, or the length when none does.
pub open spec fn first_decider(
    rules: Seq<RuleView>,
    name: Seq<char>,
    id: Seq<char>,
    title: Option<Seq<char>>,
) -> int
    decreases rules.len(),
{
    if rules.len() == 0 {
        0
    } else if decides(rules[0], name, id, title) {
        0
    } else {
        1 + first_decider(rules.drop_first(), name, id, title)
    }
}

proof fn lemma_first_decider(
    rules: Seq<RuleView>,
    default: ProductivityCategory,
    name: Seq<char>,
    id: Seq<char>,
    title: Option<Seq<char>>,
)
    ensures
        0 <= first_decider(rules, name, id, title) <= rules.len(),
        forall|i: int|
            0 <= i < first_decider(rules, name, id, title) ==> !decides(
                #[trigger] rules[i],
                name,
                id,
                title,
            ),
        first_decider(rules, name, id, title) < rules.len() ==> decides(
            rules[first_decider(rules, name, id, title)],
            name,
            id,
            title,
        ) && classify_spec(rules, default, name, id, title) == rules[first_decider(
            rules,
            name,
            id,
            title,
        )].category,
        first_decider(rules, name, id, title) == rules.len() ==> classify_spec(
            rules,
            default,
            name,
            id,
            title,
        ) == default,
    decreases rules.len(),
{
    if rules.len() > 0 && !decides(rules[0], name, id, title) {
        let rest = rules.drop_first();
        lemma_first_decider(rest, default, name, id, title);
        assert forall|i: int| 0 <= i < first_decider(rules, name, id, title) implies !decides(
            #[trigger] rules[i],
            name,
            id,
            title,
        ) by {
            if i > 0 {
                assert(rules[i] == rest[i - 1]);
            }
        }
    }
}

/// On rules ordered by priority, the category given is that of a matching
/// active rule whose priority no other matching active rule exceeds; with no
/// such rule it is the default.
pub proof fn lemma_classify_highest_priority(
    rules: Seq<RuleView>,
    default: ProductivityCategory,
    name: Seq<char>,
    id: Seq<char>,
    title: Option<Seq<char>>,
)
    requires
        sorted_desc(rules),
    ensures
        (forall|i: int| 0 <= i < rules.len() ==> !decides(#[trigger] rules[i], name, id, title))
            ==> classify_spec(rules, default, name, id, title) == default,
        (exists|i: int| 0 <= i < rules.len() && decides(#[trigger] rules[i], name, id, title))
            ==> exists|j: int|
            0 <= j < rules.len() && decides(#[trigger] rules[j], name, id, title)
                && classify_spec(rules, default, name, id, title) == rules[j].category
                && forall|i: int|
                0 <= i < rules.len() && decides(#[trigger] rules[i], name, id, title)
                    ==> rules[i].priority <= rules[j].priority,
{
    lemma_first_decider(rules, default, name, id, title);
    let k = first_decider(rules, name, id, title);
    if k < rules.len() {
        assert forall|i: int| 0 <= i < rules.len() && decides(#[trigger] rules[i], name, id, title)
            implies rules[i].priority <= rules[k].priority by {
            if i > k {
                assert(rules[k].priority >= rules[i].priority);
            }
        }
        assert(decides(rules[k], name, id, title));
    }
}

/// Of two active rules that match the same application, the one of higher
/// priority gives the category, in whichever order the two were added.
pub proof fn lemma_higher_priority_wins(
    lo: RuleView,
    hi: RuleView,
    default: ProductivityCategory,
    name: Seq<char>,
    id: Seq<char>,
    title: Option<Seq<char>>,
)
    requires
        decides(lo, name, id, title),
        decides(hi, name, id, title),
        lo.priority < hi.priority,
    ensures
        classify_spec(with_rule(with_rule(Seq::empty(), lo), hi), default, name, id, title)
            == hi.category,
        classify_spec(with_rule(with_rule(Seq::empty(), hi), lo), default, name, id, title)
            == hi.category,
{
    let e = Seq::<RuleView>::empty();
    assert(lead_count(e, lo.priority) == 0);
    assert(lead_count(e, hi.priority) == 0);
    let a = with_rule(e, lo);
    let b = with_rule(e, hi);
    assert(a =~= seq![lo]);
    assert(b =~= seq![hi]);
    assert(a.drop_first() =~= e);
    assert(b.drop_first() =~= e);
    assert(lead_count(a, hi.priority) == 0);
    assert(lead_count(b, lo.priority) == 1 + lead_count(e, lo.priority));
    assert(with_rule(a, hi) =~= seq![hi, lo]);
    assert(with_rule(b, lo) =~= seq![hi, lo]);
}

pub struct ClassifierView {
    pub rules: Seq<RuleView>,
    pub default_category: ProductivityCategory,
}

/// Classifies applications by the first active rule, in priority order, whose
/// matcher accepts them.
#[derive(Debug, Clone)]
pub struct ProductivityClassifier {
    rules: Vec<AppRule>,
    default_category: ProductivityCategory,
}

impl View for ProductivityClassifier {
    type V = ClassifierView;

    closed spec fn view(&self) -> ClassifierView {
        ClassifierView {
            rules: self.rules@.map_values(|r: AppRule| r@),
            default_category: self.default_category,
        }
    }
}

fn make_rule(kind: &str, value: &str, category: ProductivityCategory, priority: i32) -> (r: AppRule)
    ensures
        r@ == rule_view(kind@, value@, category, priority),
{
    AppRule {
        matcher_type: String::from_str(kind),
        value: String::from_str(value),
        category,
        priority,
        is_active: true,
    }
}

fn copy_rule(r: &AppRule) -> (c: AppRule)
    ensures
        c@ == r@,
{
    AppRule {
        matcher_type: r.matcher_type.clone(),
        value: r.value.clone(),
        category: r.category,
        priority: r.priority,
        is_active: r.is_active,
    }
}

/// The site named by a browser title: the text before the first `-` or white
/// space, lower-cased.
pub fn extract_domain_from_title(title: &str) -> (r: Option<String>)
    ensures
        match r {
            Some(d) => title_domain(title@) == Some(d@),
            None => title_domain(title@) is None,
        },
{
    let n = title.unicode_len();
    let mut k: usize = 0;
    while k < n && !(title.get_char(k) == '-' || is_white_space(title.get_char(k)))
        invariant
            n == title@.len(),
            0 <= k <= n,
            forall|j: int| 0 <= j < k ==> !separator(#[trigger] title@[j]),
        decreases n - k,
    {
        k = k + 1;
    }
    proof {
        lemma_leading_token(title@, k as int);
    }
    if k == 0 {
        None
    } else {
        let token = title.substring_char(0, k);
        Some(to_lowercase(token))
    }
}

fn matches_rule(rule: &AppRule, name: &str, id: &str, title: Option<&str>) -> (r: bool)
    ensures
        r == rule_matches(rule@, name@, id@, opt_view(title)),
{
    let kind = rule.matcher_type.as_str();
    let value = rule.value.as_str();
    if same_text(kind, "EXACT") {
        eq_ignore_ascii_case(name, value) || eq_ignore_ascii_case(id, value) || match title {
            Some(t) => eq_ignore_ascii_case(t, value),
            None => false,
        }
    } else if same_text(kind, "GLOB") {
        matches_glob(value, name) || matches_glob(value, id) || match title {
            Some(t) => matches_glob(value, t),
            None => false,
        }
    } else if same_text(kind, "REGEX") {
        matches_regex(value, name) || matches_regex(value, id) || match title {
            Some(t) => matches_regex(value, t),
            None => false,
        }
    } else if same_text(kind, "DOMAIN") {
        match title {
            Some(t) => match extract_domain_from_title(t) {
                Some(d) => eq_ignore_ascii_case(d.as_str(), value),
                None => false,
            },
            None => false,
        }
    } else {
        false
    }
}

impl ProductivityClassifier {
    /// Well-formed: rules ordered from the highest priority down.
    pub closed spec fn wf(&self) -> bool {
        sorted_desc(self@.rules)
    }

    /// An empty rule set with the neutral default.
    pub fn new() -> (r: Self)
        ensures
            r.wf(),
            r@.rules == Seq::<RuleView>::empty(),
            r@.default_category == ProductivityCategory::NEUTRAL,
    {
        let r = ProductivityClassifier {
            rules: Vec::new(),
            default_category: ProductivityCategory::NEUTRAL,
        };
        assert(r@.rules =~= Seq::<RuleView>::empty());
        r
    }

    /// The built-in rule set.
    pub fn with_default_rules() -> (r: Self)
        ensures
            r.wf(),
            r@.rules == with_rules(
                with_rules(Seq::empty(), default_productive_rules()),
                default_unproductive_rules(),
            ),
            r@.default_category == ProductivityCategory::NEUTRAL,
    {
        let mut classifier = Self::new();
        classifier.add_default_rules();
        classifier
    }

    fn add_default_rules(&mut self)
        requires
            old(self).wf(),
        ensures
            final(self).wf(),
            final(self)@.rules == with_rules(
                with_rules(old(self)@.rules, default_productive_rules()),
                default_unproductive_rules(),
            ),
            final(self)@.default_category == old(self)@.default_category,
    {
        self.add_rules(productive_rules());
        self.add_rules(unproductive_rules());
    }

    /// Adds a rule after every rule of higher or equal priority.
    pub fn add_rule(&mut self, rule: AppRule)
        requires
            old(self).wf(),
        ensures
            final(self).wf(),
            final(self)@.rules == with_rule(old(self)@.rules, rule@),
            final(self)@.default_category == old(self)@.default_category,
    {
        let ghost rv = rule@;
        let ghost before = self@.rules;
        let n = self.rules.len();
        let mut k: usize = 0;
        proof {
            assert(before.skip(0) =~= before);
        }
        while k < n && self.rules[k].priority >= rule.priority
            invariant
                n == self.rules@.len(),
                self@.rules == before,
                rv == rule@,
                0 <= k <= n,
                lead_count(before, rv.priority) == k + lead_count(before.skip(k as int), rv.priority),
            decreases n - k,
        {
            proof {
                assert(before.skip(k as int).drop_first() =~= before.skip(k as int + 1));
                assert(before.skip(k as int)[0] == self.rules@[k as int]@);
            }
            k = k + 1;
        }
        proof {
            if k < n {
                assert(before.skip(k as int)[0] == self.rules@[k as int]@);
            } else {
                assert(before.skip(k as int) =~= Seq::<RuleView>::empty());
            }
            assert(lead_count(before, rv.priority) == k);
            lemma_with_rule_sorted(before, rv);
        }
        self.rules.insert(k, rule);
        proof {
            assert(self@.rules =~= with_rule(before, rv));
        }
    }

    /// Adds each rule in turn, as `add_rule` does.
    pub fn add_rules(&mut self, rules: Vec<AppRule>)
        requires
            old(self).wf(),
        ensures
            final(self).wf(),
            final(self)@.rules == with_rules(old(self)@.rules, rules@.map_values(|x: AppRule| x@)),
            final(self)@.default_category == old(self)@.default_category,
    {
        let ghost start = self@.rules;
        let ghost added = rules@.map_values(|x: AppRule| x@);
        let n = rules.len();
        let mut i: usize = 0;
        while i < n
            invariant
                n == rules@.len(),
                added == rules@.map_values(|x: AppRule| x@),
                0 <= i <= n,
                self.wf(),
                self@.rules == with_rules(start, added.take(i as int)),
                self@.default_category == old(self)@.default_category,
            decreases n - i,
        {
            let r = copy_rule(&rules[i]);
            proof {
                let t = added.take(i as int + 1);
                assert(t.drop_last() =~= added.take(i as int));
                assert(t.last() == r@);
            }
            self.add_rule(r);
            i = i + 1;
        }
        proof {
            assert(added.take(n as int) =~= added);
        }
    }

    /// The category of the first active rule, in priority order, that
    /// matches the application; the default category when none does.
    pub fn classify_app(&self, app_name: &str, app_id: &str, window_title: Option<&str>) -> (r:
        ProductivityCategory)
        ensures
            r == classify_spec(
                self@.rules,
                self@.default_category,
                app_name@,
                app_id@,
                opt_view(window_title),
            ),
    {
        let ghost all = self@.rules;
        let ghost title = opt_view(window_title);
        let n = self.rules.len();
        let mut i: usize = 0;
        proof {
            assert(all.skip(0) =~= all);
        }
        while i < n
            invariant
                n == self.rules@.len(),
                all == self@.rules,
                title == opt_view(window_title),
                0 <= i <= n,
                classify_spec(all, self@.default_category, app_name@, app_id@, title)
                    == classify_spec(
                    all.skip(i as int),
                    self@.default_category,
                    app_name@,
                    app_id@,
                    title,
                ),
            decreases n - i,
        {
            let rule = &self.rules[i];
            proof {
                reveal(decides);
                assert(all.skip(i as int)[0] == rule@);
                assert(all.skip(i as int).drop_first() =~= all.skip(i as int + 1));
            }
            if rule.is_active && matches_rule(rule, app_name, app_id, window_title) {
                return rule.category;
            }
            i = i + 1;
        }
        proof {
            assert(all.skip(n as int) =~= Seq::<RuleView>::empty());
        }
        self.default_category
    }

    /// The rules, from the highest priority down.
    pub fn get_rules(&self) -> (r: &Vec<AppRule>)
        ensures
            r@.map_values(|x: AppRule| x@) == self@.rules,
    {
        &self.rules
    }

    /// Removes every rule.
    pub fn clear_rules(&mut self)
        ensures
            final(self).wf(),
            final(self)@.rules == Seq::<RuleView>::empty(),
            final(self)@.default_category == old(self)@.default_category,
    {
        self.rules.clear();
        assert(self@.rules =~= Seq::<RuleView>::empty());
    }

    /// The category given when no rule matches.
    pub fn set_default_category(&mut self, category: ProductivityCategory)
        requires
            old(self).wf(),
        ensures
            final(self).wf(),
            final(self)@.rules == old(self)@.rules,
            final(self)@.default_category == category,
    {
        self.default_category = category;
    }
}

impl Default for ProductivityClassifier {
    fn default() -> (r: Self)
        ensures
            r.wf(),
            r@.rules == with_rules(
                with_rules(Seq::empty(), default_productive_rules()),
                default_unproductive_rules(),
            ),
            r@.default_category == ProductivityCategory::NEUTRAL,
    {
        Self::with_default_rules()
    }
}

/// The built-in rules for development, office and communication tools.
pub open spec fn default_productive_rules() -> Seq<RuleView> {
    seq![
        rule_view("EXACT"@, "code.exe"@, ProductivityCategory::PRODUCTIVE, 100),
        rule_view("EXACT"@, "devenv.exe"@, ProductivityCategory::PRODUCTIVE, 100),
        rule_view("EXACT"@, "notepad++.exe"@, ProductivityCategory::PRODUCTIVE, 100),
        rule_view("EXACT"@, "sublime_text.exe"@, ProductivityCategory::PRODUCTIVE, 100),
        rule_view("EXACT"@, "atom.exe"@, ProductivityCategory::PRODUCTIVE, 100),
        rule_view("EXACT"@, "vscode.exe"@, ProductivityCategory::PRODUCTIVE, 100),
        rule_view("EXACT"@, "excel.exe"@, ProductivityCategory::PRODUCTIVE, 100),
        rule_view("EXACT"@, "winword.exe"@, ProductivityCategory::PRODUCTIVE, 100),
        rule_view("EXACT"@, "powerpnt.exe"@, ProductivityCategory::PRODUCTIVE, 100),
        rule_view("EXACT"@, "outlook.exe"@, ProductivityCategory::PRODUCTIVE, 100),
        rule_view("EXACT"@, "teams.exe"@, ProductivityCategory::PRODUCTIVE, 100),
        rule_view("EXACT"@, "slack.exe"@, ProductivityCategory::PRODUCTIVE, 100),
        rule_view("EXACT"@, "discord.exe"@, ProductivityCategory::PRODUCTIVE, 100),
        rule_view("EXACT"@, "zoom.exe"@, ProductivityCategory::PRODUCTIVE, 100),
        rule_view("EXACT"@, "skype.exe"@, ProductivityCategory::PRODUCTIVE, 100),
        rule_view("GLOB"@, "*browser*.exe"@, ProductivityCategory::NEUTRAL, 50),
        rule_view("DOMAIN"@, "github.com"@, ProductivityCategory::PRODUCTIVE, 90),
        rule_view("DOMAIN"@, "stackoverflow.com"@, ProductivityCategory::PRODUCTIVE, 90),
        rule_view("DOMAIN"@, "docs.microsoft.com"@, ProductivityCategory::PRODUCTIVE, 90),
        rule_view("DOMAIN"@, "developer.mozilla.org"@, ProductivityCategory::PRODUCTIVE, 90),
    ]
}

/// The built-in rules for games, streaming and social media.
pub open spec fn default_unproductive_rules() -> Seq<RuleView> {
    seq![
        rule_view("EXACT"@, "steam.exe"@, ProductivityCategory::UNPRODUCTIVE, 100),
        rule_view("EXACT"@, "epicgameslauncher.exe"@, ProductivityCategory::UNPRODUCTIVE, 100),
        rule_view("EXACT"@, "battle.net.exe"@, ProductivityCategory::UNPRODUCTIVE, 100),
        rule_view("EXACT"@, "origin.exe"@, ProductivityCategory::UNPRODUCTIVE, 100),
        rule_view("EXACT"@, "uplay.exe"@, ProductivityCategory::UNPRODUCTIVE, 100),
        rule_view("EXACT"@, "netflix.exe"@, ProductivityCategory::UNPRODUCTIVE, 100),
        rule_view("EXACT"@, "spotify.exe"@, ProductivityCategory::UNPRODUCTIVE, 100),
        rule_view("DOMAIN"@, "youtube.com"@, ProductivityCategory::UNPRODUCTIVE, 90),
        rule_view("DOMAIN"@, "facebook.com"@, ProductivityCategory::UNPRODUCTIVE, 90),
        rule_view("DOMAIN"@, "twitter.com"@, ProductivityCategory::UNPRODUCTIVE, 90),
        rule_view("DOMAIN"@, "instagram.com"@, ProductivityCategory::UNPRODUCTIVE, 90),
        rule_view("DOMAIN"@, "tiktok.com"@, ProductivityCategory::UNPRODUCTIVE, 90),
        rule_view("DOMAIN"@, "reddit.com"@, ProductivityCategory::UNPRODUCTIVE, 90),
        rule_view("DOMAIN"@, "netflix.com"@, ProductivityCategory::UNPRODUCTIVE, 90),
        rule_view("DOMAIN"@, "twitch.tv"@, ProductivityCategory::UNPRODUCTIVE, 90),
    ]
}

/// The built-in rules for development, office and communication tools.
pub fn productive_rules() -> (r: Vec<AppRule>)
    ensures
        r@.map_values(|x: AppRule| x@) == default_productive_rules(),
{
    let mut v: Vec<AppRule> = Vec::new();
    v.push(make_rule("EXACT", "code.exe", ProductivityCategory::PRODUCTIVE, 100));
    v.push(make_rule("EXACT", "devenv.exe", ProductivityCategory::PRODUCTIVE, 100));
    v.push(make_rule("EXACT", "notepad++.exe", ProductivityCategory::PRODUCTIVE, 100));
    v.push(make_rule("EXACT", "sublime_text.exe", ProductivityCategory::PRODUCTIVE, 100));
    v.push(make_rule("EXACT", "atom.exe", ProductivityCategory::PRODUCTIVE, 100));
    v.push(make_rule("EXACT", "vscode.exe", ProductivityCategory::PRODUCTIVE, 100));
    v.push(make_rule("EXACT", "excel.exe", ProductivityCategory::PRODUCTIVE, 100));
    v.push(make_rule("EXACT", "winword.exe", ProductivityCategory::PRODUCTIVE, 100));
    v.push(make_rule("EXACT", "powerpnt.exe", ProductivityCategory::PRODUCTIVE, 100));
    v.push(make_rule("EXACT", "outlook.exe", ProductivityCategory::PRODUCTIVE, 100));
    v.push(make_rule("EXACT", "teams.exe", ProductivityCategory::PRODUCTIVE, 100));
    v.push(make_rule("EXACT", "slack.exe", ProductivityCategory::PRODUCTIVE, 100));
    v.push(make_rule("EXACT", "discord.exe", ProductivityCategory::PRODUCTIVE, 100));
    v.push(make_rule("EXACT", "zoom.exe", ProductivityCategory::PRODUCTIVE, 100));
    v.push(make_rule("EXACT", "skype.exe", ProductivityCategory::PRODUCTIVE, 100));
    v.push(make_rule("GLOB", "*browser*.exe", ProductivityCategory::NEUTRAL, 50));
    v.push(make_rule("DOMAIN", "github.com", ProductivityCategory::PRODUCTIVE, 90));
    v.push(make_rule("DOMAIN", "stackoverflow.com", ProductivityCategory::PRODUCTIVE, 90));
    v.push(make_rule("DOMAIN", "docs.microsoft.com", ProductivityCategory::PRODUCTIVE, 90));
    v.push(make_rule("DOMAIN", "developer.mozilla.org", ProductivityCategory::PRODUCTIVE, 90));
    assert(v@.map_values(|x: AppRule| x@) =~= default_productive_rules());
    v
}

/// The built-in rules for games, streaming and social media.
pub fn unproductive_rules() -> (r: Vec<AppRule>)
    ensures
        r@.map_values(|x: AppRule| x@) == default_unproductive_rules(),
{
    let mut v: Vec<AppRule> = Vec::new();
    v.push(make_rule("EXACT", "steam.exe", ProductivityCategory::UNPRODUCTIVE, 100));
    v.push(make_rule("EXACT", "epicgameslauncher.exe", ProductivityCategory::UNPRODUCTIVE, 100));
    v.push(make_rule("EXACT", "battle.net.exe", ProductivityCategory::UNPRODUCTIVE, 100));
    v.push(make_rule("EXACT", "origin.exe", ProductivityCategory::UNPRODUCTIVE, 100));
    v.push(make_rule("EXACT", "uplay.exe", ProductivityCategory::UNPRODUCTIVE, 100));
    v.push(make_rule("EXACT", "netflix.exe", ProductivityCategory::UNPRODUCTIVE, 100));
    v.push(make_rule("EXACT", "spotify.exe", ProductivityCategory::UNPRODUCTIVE, 100));
    v.push(make_rule("DOMAIN", "youtube.com", ProductivityCategory::UNPRODUCTIVE, 90));
    v.push(make_rule("DOMAIN", "facebook.com", ProductivityCategory::UNPRODUCTIVE, 90));
    v.push(make_rule("DOMAIN", "twitter.com", ProductivityCategory::UNPRODUCTIVE, 90));
    v.push(make_rule("DOMAIN", "instagram.com", ProductivityCategory::UNPRODUCTIVE, 90));
    v.push(make_rule("DOMAIN", "tiktok.com", ProductivityCategory::UNPRODUCTIVE, 90));
    v.push(make_rule("DOMAIN", "reddit.com", ProductivityCategory::UNPRODUCTIVE, 90));
    v.push(make_rule("DOMAIN", "netflix.com", ProductivityCategory::UNPRODUCTIVE, 90));
    v.push(make_rule("DOMAIN", "twitch.tv", ProductivityCategory::UNPRODUCTIVE, 90));
    assert(v@.map_values(|x: AppRule| x@) =~= default_unproductive_rules());
    v
}
} // verus!
