use scourgify::matcher::{classify, MatchResult};
use scourgify::rules::{Rule, RuleScope, RuleType};

fn rule(id: i64, keyword: &str, rule_type: RuleType, enabled: bool) -> Rule {
    Rule {
        id,
        keyword: keyword.to_string(),
        rule_type,
        scope: RuleScope::All,
        enabled,
        created_at: "2026-07-13 00:00:00".to_string(),
    }
}

#[test]
fn classifies_case_insensitive_blacklist_match() {
    let rules = [rule(1, "TEMP", RuleType::Blacklist, true)];

    assert_eq!(
        classify(r"C:\Users\test\AppData\Temp\report.txt", RuleScope::Files, &rules),
        MatchResult::Targeted { rule_id: 1, keyword: "TEMP".to_string() }
    );
}

#[test]
fn whitelist_takes_priority_over_blacklist() {
    let rules = [
        rule(1, "Projects", RuleType::Blacklist, true),
        rule(2, "report", RuleType::Whitelist, true),
    ];

    assert_eq!(
        classify(r"C:\Projects\report.txt", RuleScope::Files, &rules),
        MatchResult::Protected { rule_id: 2, keyword: "report".to_string() }
    );
}

#[test]
fn lowest_id_wins_for_same_rule_type_regardless_of_input_order() {
    let rules = [
        rule(8, "Temp", RuleType::Blacklist, true),
        rule(3, "AppData", RuleType::Blacklist, true),
    ];

    assert_eq!(
        classify(r"C:\AppData\Temp\report.txt", RuleScope::Files, &rules),
        MatchResult::Targeted { rule_id: 3, keyword: "AppData".to_string() }
    );
}

#[test]
fn ignores_disabled_and_empty_rules() {
    let rules = [
        rule(1, "Temp", RuleType::Blacklist, false),
        rule(2, "", RuleType::Whitelist, true),
    ];

    assert_eq!(
        classify(r"C:\Users\test\Temp\report.txt", RuleScope::Files, &rules),
        MatchResult::Neutral
    );
}

#[test]
fn returns_neutral_when_no_rule_matches() {
    let rules = [rule(1, "Temp", RuleType::Blacklist, true)];

    assert_eq!(
        classify(r"C:\Users\test\Documents\report.txt", RuleScope::Files, &rules),
        MatchResult::Neutral
    );
}

#[test]
fn applies_rules_only_to_their_selected_scope() {
    let rules = [Rule { scope: RuleScope::Folders, ..rule(1, "Temp", RuleType::Blacklist, true) }];

    assert_eq!(classify(r"C:\Temp", RuleScope::Files, &rules), MatchResult::Neutral);
    assert!(matches!(
        classify(r"C:\Temp", RuleScope::Folders, &rules),
        MatchResult::Targeted { .. }
    ));
}

#[test]
fn keyword_matching_uses_unicode_lowercase() {
    let rules = [rule(4, "ÉTÉ", RuleType::Blacklist, true)];

    assert_eq!(
        classify(r"C:\Photos\été\plage.jpg", RuleScope::Files, &rules),
        MatchResult::Targeted { rule_id: 4, keyword: "ÉTÉ".to_string() }
    );
}

#[test]
fn lowest_id_wins_among_whitelist_rules_too() {
    let rules = [
        rule(9, "report", RuleType::Whitelist, true),
        rule(5, "Projects", RuleType::Whitelist, true),
        rule(1, "txt", RuleType::Blacklist, true),
    ];

    assert_eq!(
        classify(r"C:\Projects\report.txt", RuleScope::Files, &rules),
        MatchResult::Protected { rule_id: 5, keyword: "Projects".to_string() }
    );
}
