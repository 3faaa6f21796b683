use scourgify::rules::{normalize, NewRule, Rule, RuleError, RuleScope, RuleType};
use scourgify::rules_transfer::{
    check_import_size, check_payload, export_rules, preview, select_rules, validate_json_path,
    PathProblem, RuleFile, RuleTransferError, MAX_IMPORT_BYTES, RULE_FILE_VERSION,
};

fn new_rule(keyword: &str) -> NewRule {
    NewRule { keyword: keyword.to_string(), rule_type: RuleType::Blacklist, scope: RuleScope::All, enabled: true }
}

#[test]
fn rejects_empty_or_out_of_range_import_selection() {
    let rules = vec![new_rule("a"), new_rule("b"), new_rule("c")];
    assert_eq!(select_rules(rules.clone(), Some(&[])), Err(RuleTransferError::EmptySelection));
    assert_eq!(select_rules(rules.clone(), Some(&[0, 3])), Err(RuleTransferError::InvalidSelection(3)));
    assert_eq!(select_rules(rules.clone(), Some(&[2, 0, 2])).unwrap(), vec![new_rule("a"), new_rule("c")]);
    assert_eq!(select_rules(rules.clone(), None).unwrap(), rules);
}

#[test]
fn rejects_invalid_rule_before_writing_any_rows() {
    let file = RuleFile { version: RULE_FILE_VERSION, rules: vec![new_rule(" ok "), new_rule("   ")] };
    assert_eq!(check_payload(file), Err(RuleTransferError::EmptyKeyword(2)));
    let trimmed = check_payload(RuleFile { version: RULE_FILE_VERSION, rules: vec![new_rule(" ok ")] }).unwrap();
    assert_eq!(trimmed.rules[0].keyword, "ok");
    assert_eq!(
        check_payload(RuleFile { version: 2, rules: vec![new_rule("x")] }),
        Err(RuleTransferError::UnsupportedVersion(2))
    );
    assert_eq!(check_payload(RuleFile { version: RULE_FILE_VERSION, rules: Vec::new() }), Err(RuleTransferError::EmptyFile));
}

#[test]
fn exports_only_selected_rules_in_stored_order() {
    let stored = [
        Rule { id: 1, keyword: "a".to_string(), rule_type: RuleType::Whitelist, scope: RuleScope::Files, enabled: true, created_at: String::new() },
        Rule { id: 2, keyword: "b".to_string(), rule_type: RuleType::Blacklist, scope: RuleScope::All, enabled: false, created_at: String::new() },
    ];
    let all = export_rules(&stored, None);
    assert_eq!(all.len(), 2);
    assert_eq!(all[0].keyword, "a");
    assert_eq!(all[0].scope, RuleScope::Files);
    let selected = export_rules(&stored, Some(&[2]));
    assert_eq!(selected.len(), 1);
    assert_eq!(selected[0].keyword, "b");
    assert!(!selected[0].enabled);
    let p = preview(RuleFile { version: RULE_FILE_VERSION, rules: all });
    assert_eq!(p.count, 2);
}

#[test]
fn rule_file_paths_and_sizes_are_checked() {
    assert_eq!(validate_json_path(" "), Err(RuleTransferError::InvalidPath(PathProblem::Empty)));
    assert_eq!(validate_json_path("rules.json"), Err(RuleTransferError::InvalidPath(PathProblem::NotAbsolute)));
    assert_eq!(validate_json_path(r"C:\rules.txt"), Err(RuleTransferError::InvalidPath(PathProblem::NotJson)));
    assert_eq!(validate_json_path(r"C:\rules.JSON"), Ok(()));
    assert_eq!(check_import_size(MAX_IMPORT_BYTES), Ok(()));
    assert_eq!(
        check_import_size(MAX_IMPORT_BYTES + 1).unwrap_err().message(),
        "invalid rule file: file is larger than 10 MB"
    );
}

#[test]
fn rules_are_trimmed_and_blank_keywords_refused() {
    assert_eq!(normalize(new_rule("  Temp ")).unwrap().keyword, "Temp");
    assert_eq!(normalize(new_rule("   ")), Err(RuleError::EmptyKeyword));
}

#[test]
fn exported_rules_read_back_as_the_same_rules() {
    let stored = vec![
        Rule { id: 3, keyword: "Temp".to_string(), rule_type: RuleType::Blacklist, scope: RuleScope::Files, enabled: true, created_at: String::new() },
        Rule { id: 5, keyword: "Desktop".to_string(), rule_type: RuleType::Whitelist, scope: RuleScope::All, enabled: false, created_at: String::new() },
        Rule { id: 9, keyword: "Cache".to_string(), rule_type: RuleType::Blacklist, scope: RuleScope::Folders, enabled: true, created_at: String::new() },
    ];
    let exported = export_rules(&stored, Some(&[9, 3]));
    let checked = check_payload(RuleFile { version: RULE_FILE_VERSION, rules: exported.clone() }).unwrap();
    assert_eq!(checked.rules, exported);
    assert_eq!(select_rules(checked.rules, None).unwrap(), exported);
    assert_eq!(exported.iter().map(|r| r.keyword.as_str()).collect::<Vec<_>>(), vec!["Temp", "Cache"]);
}
