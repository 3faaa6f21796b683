//! The nine-figure grid summary of Quick Access, the rules and the cleanup history.
use vstd::prelude::*;

use crate::history::HistoryTotals;
use crate::matcher::{classify, spec_classify, MatchResult};
use crate::quick_access::QaItem;
use crate::rules::{Rule, RuleScope, RuleType};

verus! {

/// The figures of the grid view; those that come from the database are `None` when
/// it is unavailable.
#[derive(Debug, Clone, Copy, PartialEq, Eq, Structural)]
pub struct GridSummary {
    pub recent_files: usize,
    pub quick_access: usize,
    pub frequent_folders: usize,
    pub blacklist_rules: Option<usize>,
    pub to_clean: Option<usize>,
    pub to_clean_recent: Option<usize>,
    pub to_clean_frequent: Option<usize>,
    pub whitelist_rules: Option<usize>,
    pub protected_items: Option<usize>,
    pub cleaned_files: Option<u64>,
    pub cleaned_total: Option<u64>,
    pub cleaned_folders: Option<u64>,
}

/// The summary with only the Quick Access figures, for when the database is
/// unavailable.
pub fn empty_database_summary(recent: &[QaItem], frequent: &[QaItem]) -> (r: GridSummary)
    requires
        recent@.len() + frequent@.len() <= usize::MAX,
    ensures
        r == (GridSummary {
            recent_files: recent@.len() as usize,
            quick_access: (recent@.len() + frequent@.len()) as usize,
            frequent_folders: frequent@.len() as usize,
            blacklist_rules: None,
            to_clean: None,
            to_clean_recent: None,
            to_clean_frequent: None,
            whitelist_rules: None,
            protected_items: None,
            cleaned_files: None,
            cleaned_total: None,
            cleaned_folders: None,
        }),
{
    GridSummary {
        recent_files: recent.len(),
        quick_access: recent.len() + frequent.len(),
        frequent_folders: frequent.len(),
        blacklist_rules: None,
        to_clean: None,
        to_clean_recent: None,
        to_clean_frequent: None,
        whitelist_rules: None,
        protected_items: None,
        cleaned_files: None,
        cleaned_total: None,
        cleaned_folders: None,
    }
}

/// How many items a whitelist rule protects and how many a blacklist rule targets.
#[derive(Debug, Clone, Copy, PartialEq, Eq, Structural)]
pub struct ClassificationCounts {
    pub targeted: usize,
    pub protected: usize,
}

/// The number of the first `n` items that classify as targeted (`targeted`) or as
/// protected (otherwise).
pub open spec fn count_matching(items: Seq<QaItem>, item_scope: RuleScope, rules: Seq<Rule>, targeted: bool, n: int) -> nat
    decreases n,
{
    if n <= 0 {
        0
    } else {
        let m = spec_classify(items[n - 1].path@, item_scope, rules);
        count_matching(items, item_scope, rules, targeted, n - 1) + if (targeted && m is Targeted) || (!targeted
            && m is Protected) {
            1nat
        } else {
            0nat
        }
    }
}

proof fn lemma_count_bound(items: Seq<QaItem>, item_scope: RuleScope, rules: Seq<Rule>, targeted: bool, n: int)
    requires
        0 <= n,
    ensures
        count_matching(items, item_scope, rules, targeted, n) <= n,
    decreases n,
{
    if n > 0 {
        lemma_count_bound(items, item_scope, rules, targeted, n - 1);
    }
}

/// Classifies each item of `item_scope` and counts the targeted and the protected ones.
pub fn count_classifications(items: &[QaItem], item_scope: RuleScope, rules: &[Rule]) -> (r: ClassificationCounts)
    ensures
        r.targeted == count_matching(items@, item_scope, rules@, true, items@.len() as int),
        r.protected == count_matching(items@, item_scope, rules@, false, items@.len() as int),
{
    let mut targeted: usize = 0;
    let mut protected: usize = 0;
    let mut i: usize = 0;
    while i < items.len()
        invariant
            i <= items@.len(),
            targeted == count_matching(items@, item_scope, rules@, true, i as int),
            protected == count_matching(items@, item_scope, rules@, false, i as int),
        decreases items@.len() - i,
    {
        proof {
            lemma_count_bound(items@, item_scope, rules@, true, i as int);
            lemma_count_bound(items@, item_scope, rules@, false, i as int);
        }
        match classify(items[i].path.as_str(), item_scope, rules) {
            MatchResult::Targeted { .. } => {
                targeted = targeted + 1;
            },
            MatchResult::Protected { .. } => {
                protected = protected + 1;
            },
            MatchResult::Neutral => {},
        }
        i = i + 1;
    }
    ClassificationCounts { targeted, protected }
}

/// The number of the first `n` rules that are enabled and of `rule_type`.
pub open spec fn count_enabled_of(rules: Seq<Rule>, rule_type: RuleType, n: int) -> nat
    decreases n,
{
    if n <= 0 {
        0
    } else {
        count_enabled_of(rules, rule_type, n - 1) + if rules[n - 1].enabled && rules[n - 1].rule_type == rule_type {
            1nat
        } else {
            0nat
        }
    }
}

proof fn lemma_enabled_bound(rules: Seq<Rule>, rule_type: RuleType, n: int)
    requires
        0 <= n,
    ensures
        count_enabled_of(rules, rule_type, n) <= n,
    decreases n,
{
    if n > 0 {
        lemma_enabled_bound(rules, rule_type, n - 1);
    }
}

/// The number of enabled rules of `rule_type`.
pub fn enabled_rules_of_type(rules: &[Rule], rule_type: RuleType) -> (r: usize)
    ensures
        r == count_enabled_of(rules@, rule_type, rules@.len() as int),
{
    let mut count: usize = 0;
    let mut i: usize = 0;
    while i < rules.len()
        invariant
            i <= rules@.len(),
            count == count_enabled_of(rules@, rule_type, i as int),
        decreases rules@.len() - i,
    {
        proof {
            lemma_enabled_bound(rules@, rule_type, i as int);
        }
        if rules[i].enabled && rules[i].rule_type == rule_type {
            count = count + 1;
        }
        i = i + 1;
    }
    count
}

/// The grid summary: the Quick Access figures, and, when the database could be
/// read (its rules and history totals), the enabled rules of each type, the items
/// that the rules would clean or protect (recent items as files, frequent ones as
/// folders), and the cleaned totals.
pub fn grid_summary(recent: &[QaItem], frequent: &[QaItem], database: Option<(&[Rule], HistoryTotals)>) -> (r:
    GridSummary)
    requires
        recent@.len() + frequent@.len() <= usize::MAX,
    ensures
        r.recent_files == recent@.len(),
        r.frequent_folders == frequent@.len(),
        r.quick_access == recent@.len() + frequent@.len(),
        match database {
            None => r.blacklist_rules is None && r.whitelist_rules is None && r.to_clean is None
                && r.to_clean_recent is None && r.to_clean_frequent is None && r.protected_items is None
                && r.cleaned_files is None && r.cleaned_total is None && r.cleaned_folders is None,
            Some((rules, totals)) => {
                let tr = count_matching(recent@, RuleScope::Files, rules@, true, recent@.len() as int);
                let tf = count_matching(frequent@, RuleScope::Folders, rules@, true, frequent@.len() as int);
                let pr = count_matching(recent@, RuleScope::Files, rules@, false, recent@.len() as int);
                let pf = count_matching(frequent@, RuleScope::Folders, rules@, false, frequent@.len() as int);
                &&& r.blacklist_rules == Some(count_enabled_of(rules@, RuleType::Blacklist, rules@.len() as int) as usize)
                &&& r.whitelist_rules == Some(count_enabled_of(rules@, RuleType::Whitelist, rules@.len() as int) as usize)
                &&& r.to_clean_recent == Some(tr as usize)
                &&& r.to_clean_frequent == Some(tf as usize)
                &&& r.to_clean == Some((tr + tf) as usize)
                &&& r.protected_items == Some((pr + pf) as usize)
                &&& r.cleaned_files == Some(totals.recent_files)
                &&& r.cleaned_total == Some(totals.total)
                &&& r.cleaned_folders == Some(totals.frequent_folders)
            },
        },
{
    let mut summary = empty_database_summary(recent, frequent);
    match database {
        None => summary,
        Some((rules, totals)) => {
            let recent_matches = count_classifications(recent, RuleScope::Files, rules);
            let frequent_matches = count_classifications(frequent, RuleScope::Folders, rules);
            proof {
                lemma_count_bound(recent@, RuleScope::Files, rules@, true, recent@.len() as int);
                lemma_count_bound(frequent@, RuleScope::Folders, rules@, true, frequent@.len() as int);
                lemma_count_bound(recent@, RuleScope::Files, rules@, false, recent@.len() as int);
                lemma_count_bound(frequent@, RuleScope::Folders, rules@, false, frequent@.len() as int);
            }
            summary.blacklist_rules = Some(enabled_rules_of_type(rules, RuleType::Blacklist));
            summary.whitelist_rules = Some(enabled_rules_of_type(rules, RuleType::Whitelist));
            summary.to_clean_recent = Some(recent_matches.targeted);
            summary.to_clean_frequent = Some(frequent_matches.targeted);
            summary.to_clean = Some(recent_matches.targeted + frequent_matches.targeted);
            summary.protected_items = Some(recent_matches.protected + frequent_matches.protected);
            summary.cleaned_files = Some(totals.recent_files);
            summary.cleaned_total = Some(totals.total);
            summary.cleaned_folders = Some(totals.frequent_folders);
            summary
        },
    }
}

} // verus!
