//! The rule set in use: built-in rules replaced by those synchronised from
//! the remote service, and statistics over them.
use vstd::prelude::*;

use crate::productivity::{
    category_of_label, default_productive_rules, default_unproductive_rules, with_rule,
    with_rules, AppRule, ProductivityCategory, ProductivityClassifier, RuleView,
};
use crate::text::same_text;
use crate::usage::valid_time;

verus! {

/// A rule as the remote service sends it.
#[derive(Debug, Clone)]
pub struct RemoteAppRule {
    pub id: String,
    pub matcher_type: String,
    pub value: String,
    pub category: String,
    pub priority: i32,
    pub is_active: bool,
    pub created_at: String,
    pub updated_at: String,
}

/// The rule a remote rule stands for.
pub open spec fn remote_view(x: RemoteAppRule) -> RuleView {
    RuleView {
        kind: x.matcher_type@,
        value: x.value@,
        category: category_of_label(x.category@),
        priority: x.priority,
        is_active: x.is_active,
    }
}

/// The local rule for a remote one; an unknown category label reads as
/// neutral.
pub fn to_local_rule(remote: RemoteAppRule) -> (r: AppRule)
    ensures
        r@ == (RuleView {
            kind: remote.matcher_type@,
            value: remote.value@,
            category: category_of_label(remote.category@),
            priority: remote.priority,
            is_active: remote.is_active,
        }),
{
    let category = ProductivityCategory::from_label(remote.category.as_str());
    AppRule {
        matcher_type: remote.matcher_type,
        value: remote.value,
        category,
        priority: remote.priority,
        is_active: remote.is_active,
    }
}

/// Counts over a rule set.
#[derive(Debug, Clone, Copy, PartialEq, Eq, Structural)]
pub struct RuleStatistics {
    pub total_rules: usize,
    pub active_rules: usize,
    pub productive_rules: usize,
    pub neutral_rules: usize,
    pub unproductive_rules: usize,
    pub exact_matchers: usize,
    pub glob_matchers: usize,
    pub regex_matchers: usize,
    pub domain_matchers: usize,
}

pub open spec fn count_active(s: Seq<RuleView>) -> nat
    decreases s.len(),
{
    if s.len() == 0 {
        0
    } else {
        count_active(s.drop_last()) + if s.last().is_active {
            1nat
        } else {
            0nat
        }
    }
}

pub open spec fn count_category(s: Seq<RuleView>, c: ProductivityCategory) -> nat
    decreases s.len(),
{
    if s.len() == 0 {
        0
    } else {
        count_category(s.drop_last(), c) + if s.last().category == c {
            1nat
        } else {
            0nat
        }
    }
}

pub open spec fn count_kind(s: Seq<RuleView>, k: Seq<char>) -> nat
    decreases s.len(),
{
    if s.len() == 0 {
        0
    } else {
        count_kind(s.drop_last(), k) + if s.last().kind == k {
            1nat
        } else {
            0nat
        }
    }
}

proof fn lemma_counts_bounded(s: Seq<RuleView>, c: ProductivityCategory, k: Seq<char>)
    ensures
        count_active(s) <= s.len(),
        count_category(s, c) <= s.len(),
        count_kind(s, k) <= s.len(),
    decreases s.len(),
{
    if s.len() > 0 {
        lemma_counts_bounded(s.drop_last(), c, k);
    }
}

/// The statistics of a rule set.
pub open spec fn statistics_of(s: Seq<RuleView>) -> RuleStatistics {
    RuleStatistics {
        total_rules: s.len() as usize,
        active_rules: count_active(s) as usize,
        productive_rules: count_category(s, ProductivityCategory::PRODUCTIVE) as usize,
        neutral_rules: count_category(s, ProductivityCategory::NEUTRAL) as usize,
        unproductive_rules: count_category(s, ProductivityCategory::UNPRODUCTIVE) as usize,
        exact_matchers: count_kind(s, "EXACT"@) as usize,
        glob_matchers: count_kind(s, "GLOB"@) as usize,
        regex_matchers: count_kind(s, "REGEX"@) as usize,
        domain_matchers: count_kind(s, "DOMAIN"@) as usize,
    }
}

proof fn lemma_kind_tags_distinct()
    ensures
        "EXACT"@ != "GLOB"@,
        "EXACT"@ != "REGEX"@,
        "EXACT"@ != "DOMAIN"@,
        "GLOB"@ != "REGEX"@,
        "GLOB"@ != "DOMAIN"@,
        "REGEX"@ != "DOMAIN"@,
{
    reveal_strlit("EXACT");
    reveal_strlit("GLOB");
    reveal_strlit("REGEX");
    reveal_strlit("DOMAIN");
    assert("EXACT"@.len() != "GLOB"@.len());
    assert("EXACT"@[0] != "REGEX"@[0]);
    assert("EXACT"@.len() != "DOMAIN"@.len());
    assert("GLOB"@.len() != "REGEX"@.len());
    assert("GLOB"@.len() != "DOMAIN"@.len());
    assert("REGEX"@.len() != "DOMAIN"@.len());
}

/// Seconds between synchronisations of the rules (one hour).
pub const SYNC_INTERVAL_SECONDS: i64 = 3600;

/// The classifier in use and when its rules were last synchronised
/// (seconds since the Unix epoch).
pub struct AppRulesManager {
    classifier: ProductivityClassifier,
    last_sync: Option<i64>,
    sync_interval: i64,
}

impl AppRulesManager {
    pub closed spec fn classifier_spec(&self) -> ProductivityClassifier {
        self.classifier
    }

    pub closed spec fn last_sync(&self) -> Option<i64> {
        self.last_sync
    }

    pub closed spec fn sync_interval(&self) -> i64 {
        self.sync_interval
    }

    pub open spec fn wf(&self) -> bool {
        &&& self.classifier_spec().wf()
        &&& self.last_sync() matches Some(t) ==> valid_time(t)
        &&& 0 <= self.sync_interval()
    }

    /// The built-in rules, never synchronised, on an hourly schedule.
    pub fn new() -> (r: Self)
        ensures
            r.wf(),
            r.classifier_spec()@.rules == with_rules(
                with_rules(Seq::empty(), default_productive_rules()),
                default_unproductive_rules(),
            ),
            r.last_sync() is None,
            r.sync_interval() == SYNC_INTERVAL_SECONDS,
    {
        AppRulesManager {
            classifier: ProductivityClassifier::with_default_rules(),
            last_sync: None,
            sync_interval: SYNC_INTERVAL_SECONDS,
        }
    }

    /// A synchronisation is due when none happened yet, or the interval has
    /// passed since the last.
    pub fn should_sync(&self, now: i64) -> (r: bool)
        requires
            self.wf(),
            valid_time(now),
        ensures
            r == match self.last_sync() {
                None => true,
                Some(t) => now - t >= self.sync_interval(),
            },
    {
        match self.last_sync {
            None => true,
            Some(t) => now - t >= self.sync_interval,
        }
    }

    /// Replaces the whole rule set by the remote rules at `now`, in one step.
    pub fn apply_remote_rules(&mut self, remote: Vec<RemoteAppRule>, now: i64)
        requires
            old(self).wf(),
            valid_time(now),
        ensures
            final(self).wf(),
            final(self).classifier_spec()@.rules == with_rules(
                Seq::empty(),
                remote@.map_values(
                    |x: RemoteAppRule| remote_view(x),
                ),
            ),
            final(self).classifier_spec()@.default_category == old(
                self,
            ).classifier_spec()@.default_category,
            final(self).last_sync() == Some(now),
            final(self).sync_interval() == old(self).sync_interval(),
    {
        let ghost src = remote@;
        let mut local: Vec<AppRule> = Vec::new();
        let mut rest = remote;
        let ghost mut taken: int = 0;
        while rest.len() > 0
            invariant
                0 <= taken <= src.len(),
                rest@ == src.skip(taken),
                local@.map_values(|x: AppRule| x@) == src.take(taken).map_values(
                    |x: RemoteAppRule| remote_view(x),
                ),
            decreases rest@.len(),
        {
            let r = rest.remove(0);
            proof {
                assert(r == src[taken]);
                assert(src.skip(taken + 1) =~= src.skip(taken).drop_first());
            }
            let l = to_local_rule(r);
            let ghost before = local@;
            local.push(l);
            proof {
                assert(l@ == remote_view(src[taken]));
                let prev = taken;
                taken = taken + 1;
                let lm = local@.map_values(|x: AppRule| x@);
                let sm = src.take(taken).map_values(|x: RemoteAppRule| remote_view(x));
                let pm = src.take(prev).map_values(|x: RemoteAppRule| remote_view(x));
                assert(before.map_values(|x: AppRule| x@) == pm);
                assert(pm.len() == prev);
                assert(before.map_values(|x: AppRule| x@).len() == before.len());
                assert(before.len() == prev);
                assert(local@ == before.push(l));
                assert forall|k: int| 0 <= k < taken implies lm[k] == sm[k] by {
                    if k < prev {
                        assert(local@[k] == before[k]);
                        assert(lm[k] == before.map_values(|x: AppRule| x@)[k]);
                        assert(src.take(taken)[k] == src.take(prev)[k]);
                        assert(sm[k] == pm[k]);
                    } else {
                        assert(local@[k] == l);
                        assert(src.take(taken)[k] == src[prev]);
                    }
                }
                assert(lm =~= sm);
            }
        }
        proof {
            assert(src.take(taken) =~= src);
        }
        self.classifier.clear_rules();
        self.classifier.add_rules(local);
        self.last_sync = Some(now);
    }

    /// The rules in use, from the highest priority down.
    pub fn get_rules(&self) -> (r: &Vec<AppRule>)
        ensures
            r@.map_values(|x: AppRule| x@) == self.classifier_spec()@.rules,
    {
        self.classifier.get_rules()
    }

    /// The classifier in use.
    pub fn classifier(&self) -> (r: &ProductivityClassifier)
        ensures
            *r == self.classifier_spec(),
    {
        &self.classifier
    }

    pub fn add_rule(&mut self, rule: AppRule)
        requires
            old(self).wf(),
        ensures
            final(self).wf(),
            final(self).classifier_spec()@.rules == with_rule(
                old(self).classifier_spec()@.rules,
                rule@,
            ),
            final(self).last_sync() == old(self).last_sync(),
    {
        self.classifier.add_rule(rule);
    }

    pub fn clear_rules(&mut self)
        requires
            old(self).wf(),
        ensures
            final(self).wf(),
            final(self).classifier_spec()@.rules == Seq::<RuleView>::empty(),
            final(self).last_sync() == old(self).last_sync(),
    {
        self.classifier.clear_rules();
    }

    pub fn set_default_category(&mut self, category: ProductivityCategory)
        requires
            old(self).wf(),
        ensures
            final(self).wf(),
            final(self).classifier_spec()@.rules == old(self).classifier_spec()@.rules,
            final(self).classifier_spec()@.default_category == category,
            final(self).last_sync() == old(self).last_sync(),
    {
        self.classifier.set_default_category(category);
    }

    /// Counts of the rules in use by activity, category and matcher type.
    pub fn get_rule_statistics(&self) -> (r: RuleStatistics)
        ensures
            r == statistics_of(self.classifier_spec()@.rules),
    {
        let rules = self.classifier.get_rules();
        let ghost s = self.classifier_spec()@.rules;
        let n = rules.len();
        let mut st = RuleStatistics {
            total_rules: n,
            active_rules: 0,
            productive_rules: 0,
            neutral_rules: 0,
            unproductive_rules: 0,
            exact_matchers: 0,
            glob_matchers: 0,
            regex_matchers: 0,
            domain_matchers: 0,
        };
        let mut i: usize = 0;
        while i < n
            invariant
                n == s.len(),
                rules@.map_values(|x: AppRule| x@) == s,
                0 <= i <= n,
                st.total_rules == n,
                st.active_rules == count_active(s.take(i as int)),
                st.productive_rules == count_category(s.take(i as int), ProductivityCategory::PRODUCTIVE),
                st.neutral_rules == count_category(s.take(i as int), ProductivityCategory::NEUTRAL),
                st.unproductive_rules == count_category(s.take(i as int), ProductivityCategory::UNPRODUCTIVE),
                st.exact_matchers == count_kind(s.take(i as int), "EXACT"@),
                st.glob_matchers == count_kind(s.take(i as int), "GLOB"@),
                st.regex_matchers == count_kind(s.take(i as int), "REGEX"@),
                st.domain_matchers == count_kind(s.take(i as int), "DOMAIN"@),
            decreases n - i,
        {
            let rule = &rules[i];
            proof {
                let t = s.take(i as int + 1);
                assert(t.drop_last() =~= s.take(i as int));
                assert(t.last() == rule@);
                lemma_counts_bounded(s.take(i as int), ProductivityCategory::PRODUCTIVE, "EXACT"@);
                lemma_counts_bounded(s.take(i as int), ProductivityCategory::NEUTRAL, "GLOB"@);
                lemma_counts_bounded(s.take(i as int), ProductivityCategory::UNPRODUCTIVE, "REGEX"@);
                lemma_counts_bounded(s.take(i as int), ProductivityCategory::UNPRODUCTIVE, "DOMAIN"@);
            }
            if rule.is_active {
                st.active_rules = st.active_rules + 1;
            }
            match rule.category {
                ProductivityCategory::PRODUCTIVE => st.productive_rules = st.productive_rules + 1,
                ProductivityCategory::NEUTRAL => st.neutral_rules = st.neutral_rules + 1,
                ProductivityCategory::UNPRODUCTIVE => st.unproductive_rules = st.unproductive_rules
                    + 1,
            }
            let kind = rule.matcher_type.as_str();
            proof {
                lemma_kind_tags_distinct();
            }
            if same_text(kind, "EXACT") {
                st.exact_matchers = st.exact_matchers + 1;
            } else if same_text(kind, "GLOB") {
                st.glob_matchers = st.glob_matchers + 1;
            } else if same_text(kind, "REGEX") {
                st.regex_matchers = st.regex_matchers + 1;
            } else if same_text(kind, "DOMAIN") {
                st.domain_matchers = st.domain_matchers + 1;
            }
            i = i + 1;
        }
        proof {
            assert(s.take(n as int) =~= s);
        }
        st
    }
}

} // verus!
