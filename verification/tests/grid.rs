use scourgify::grid::{empty_database_summary, grid_summary};
use scourgify::history::HistoryTotals;
use scourgify::quick_access::QaItem;
use scourgify::rules::{Rule, RuleScope, RuleType};

fn item(path: &str) -> QaItem {
    QaItem { path: path.to_string(), name: path.to_string(), last_interaction_at: None, pinned: None }
}

fn rule(id: i64, keyword: &str, rule_type: RuleType, scope: RuleScope, enabled: bool) -> Rule {
    Rule {
        id,
        keyword: keyword.to_string(),
        rule_type,
        scope,
        enabled,
        created_at: "2026-07-13 00:00:00".to_string(),
    }
}

#[test]
fn builds_quick_access_summary_without_database_values() {
    let summary = empty_database_summary(&[item("a"), item("b")], &[item("c")]);

    assert_eq!(summary.recent_files, 2);
    assert_eq!(summary.quick_access, 3);
    assert_eq!(summary.frequent_folders, 1);
    assert_eq!(summary.to_clean, None);
    assert_eq!(summary.cleaned_total, None);
}

#[test]
fn grid_counts_targeted_and_protected_items_per_scope() {
    let recent = [item(r"C:\Temp\a.txt"), item(r"C:\Work\b.txt"), item(r"C:\Docs\c.txt")];
    let frequent = [item(r"C:\Temp"), item(r"C:\Work")];
    let rules = [
        rule(1, "temp", RuleType::Blacklist, RuleScope::All, true),
        rule(2, "work", RuleType::Whitelist, RuleScope::Folders, true),
        rule(3, "docs", RuleType::Blacklist, RuleScope::Files, false),
    ];
    let totals = HistoryTotals { total: 9, recent_files: 5, frequent_folders: 4 };
    let summary = grid_summary(&recent, &frequent, Some((&rules, totals)));

    assert_eq!(summary.quick_access, 5);
    assert_eq!(summary.blacklist_rules, Some(1));
    assert_eq!(summary.whitelist_rules, Some(1));
    assert_eq!(summary.to_clean_recent, Some(1));
    assert_eq!(summary.to_clean_frequent, Some(1));
    assert_eq!(summary.to_clean, Some(2));
    assert_eq!(summary.protected_items, Some(1));
    assert_eq!(summary.cleaned_total, Some(9));
    assert_eq!(summary.cleaned_files, Some(5));
    assert_eq!(summary.cleaned_folders, Some(4));
}
