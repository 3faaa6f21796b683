use scourgify::error::IncidentIds;
use scourgify::auto_clean::{ensure_allowed, run_sections, AutoCleanError, AutoCleanState};
use scourgify::cleanup::{clean_record, item_scope_for, item_type_for, prepare_cleanup, Selection};
use scourgify::error::{CommandError, ErrorCode};
use scourgify::history::CleanSource;
use scourgify::matcher::MatchResult;
use scourgify::privacy::PrivacyModeState;
use scourgify::quick_access::{QaBatchFailure, QaBatchResult};
use scourgify::rules::{Rule, RuleScope, RuleType};

fn rule(id: i64, keyword: &str, rule_type: RuleType) -> Rule {
    Rule {
        id,
        keyword: keyword.to_string(),
        rule_type,
        scope: RuleScope::All,
        enabled: true,
        created_at: "2026-07-13 00:00:00".to_string(),
    }
}

#[test]
fn auto_clean_runs_both_sections_in_order_and_aggregates_results() {
    let mut calls = Vec::new();

    let result = run_sections(|qa_type: &str, source: CleanSource| {
        calls.push((qa_type.to_string(), source));
        if qa_type == "recent" {
            Ok(QaBatchResult {
                total: 3,
                succeeded: vec![r"C:\Temp\a.txt".to_string()],
                failed: vec![QaBatchFailure {
                    path: r"C:\Temp\b.txt".to_string(),
                    error: CommandError::expected(
                        &mut IncidentIds::new(7),
                        "test",
                        ErrorCode::QuickAccessOperationFailed,
                        "in use",
                        false,
                        "in use",
                    ),
                }],
                warnings: Vec::new(),
                skipped_protected: vec![r"C:\Work".to_string()],
                history_error: Some("database busy".to_string()),
            })
        } else {
            Err("frequent scan failed".to_string())
        }
    });

    assert_eq!(
        calls,
        [
            ("recent".to_string(), CleanSource::Auto),
            ("frequent".to_string(), CleanSource::Auto),
        ]
    );
    assert_eq!(result.total, 3);
    assert_eq!(result.succeeded, 1);
    assert_eq!(result.failed, 1);
    assert_eq!(result.skipped_protected, 1);
    assert_eq!(result.section_errors, 1);
    assert_eq!(result.history_errors, 1);
    assert!(result.has_failures());
    assert_eq!(result.frequent.error.as_deref(), Some("frequent scan failed"));
}

#[test]
fn auto_clean_rejects_unavailable_database_and_active_privacy() {
    assert!(ensure_allowed(false, PrivacyModeState::Inactive)
        .unwrap_err()
        .message()
        .contains("Database is unavailable"));
    assert!(ensure_allowed(true, PrivacyModeState::ActiveFull)
        .unwrap_err()
        .message()
        .contains("Privacy mode is active"));
    assert!(ensure_allowed(
        true,
        PrivacyModeState::ActivePartial { recent: true, frequent: false },
    )
    .is_err());
}

#[test]
fn auto_clean_allows_only_one_run_at_a_time() {
    let state = AutoCleanState::default();
    let first = state.begin().unwrap();

    assert_eq!(state.begin().unwrap_err().message(), "Auto-clean is already running.");

    drop(first);
    assert!(state.begin().is_ok());
}

#[test]
fn manual_cleanup_skips_protected_and_keeps_other_matches() {
    let rules = [rule(1, "Projects", RuleType::Whitelist), rule(2, "Temp", RuleType::Blacklist)];
    let prepared = prepare_cleanup(
        vec![
            r"C:\Projects\report.txt".to_string(),
            r"C:\Temp\cache.bin".to_string(),
            r"C:\Downloads\notes.txt".to_string(),
        ],
        RuleScope::Files,
        &rules,
        Selection::AllUnprotected,
    );

    assert_eq!(prepared.total, 3);
    assert_eq!(prepared.skipped_protected, vec![r"C:\Projects\report.txt"]);
    assert_eq!(prepared.candidates.len(), 2);
    assert!(matches!(
        prepared.candidates[0].match_result,
        MatchResult::Targeted { rule_id: 2, .. }
    ));
    assert_eq!(prepared.candidates[1].match_result, MatchResult::Neutral);
}

#[test]
fn smart_cleanup_selects_only_targeted_items() {
    let rules = [rule(1, "Projects", RuleType::Whitelist), rule(2, "Temp", RuleType::Blacklist)];
    let prepared = prepare_cleanup(
        vec![
            r"C:\Projects\report.txt".to_string(),
            r"C:\Temp\cache.bin".to_string(),
            r"C:\Downloads\notes.txt".to_string(),
        ],
        RuleScope::Files,
        &rules,
        Selection::TargetedOnly,
    );

    assert_eq!(prepared.total, 1);
    assert_eq!(prepared.candidates.len(), 1);
    assert!(prepared.skipped_protected.is_empty());
    assert_eq!(prepared.candidates[0].path, r"C:\Temp\cache.bin");
}

#[test]
fn cleanup_deduplicates_paths_case_insensitively() {
    let prepared = prepare_cleanup(
        vec![r"C:\Temp\A.txt".to_string(), r"c:\temp\a.TXT".to_string()],
        RuleScope::Files,
        &[],
        Selection::AllUnprotected,
    );

    assert_eq!(prepared.total, 1);
    assert_eq!(prepared.candidates.len(), 1);
    assert_eq!(prepared.candidates[0].path, r"C:\Temp\A.txt");
}

#[test]
fn creates_rule_snapshot_only_for_targeted_match() {
    let targeted = MatchResult::Targeted { rule_id: 7, keyword: "Temp".to_string() };

    let targeted_record =
        clean_record(r"C:\Temp\a.txt", "recent_file", Some(&targeted), CleanSource::Manual);
    let neutral_record = clean_record(r"C:\Docs\a.txt", "recent_file", None, CleanSource::Auto);

    assert_eq!(targeted_record.rule_id, Some(7));
    assert_eq!(targeted_record.rule_keyword.as_deref(), Some("Temp"));
    assert_eq!(neutral_record.rule_id, None);
    assert_eq!(neutral_record.rule_keyword, None);
    assert_eq!(targeted_record.source, CleanSource::Manual);
    assert_eq!(neutral_record.source, CleanSource::Auto);
}

#[test]
fn validates_cleanup_item_type() {
    assert_eq!(item_type_for("recent").unwrap(), "recent_file");
    assert_eq!(item_type_for("frequent").unwrap(), "frequent_folder");
    assert!(item_type_for("all").is_err());
}

#[test]
fn cleanup_type_error_names_the_type() {
    let error = item_type_for("all").unwrap_err();
    assert_eq!(error.message(), "unsupported Quick Access cleanup type: all");
    assert_eq!(item_scope_for("recent").unwrap(), RuleScope::Files);
    assert_eq!(item_scope_for("frequent").unwrap(), RuleScope::Folders);
    assert!(item_scope_for("all").is_err());
}

#[test]
fn protected_items_are_never_candidates() {
    let rules = [rule(1, "keep", RuleType::Whitelist), rule(2, "keep", RuleType::Blacklist)];
    let prepared = prepare_cleanup(
        vec![r"C:\keep\a.txt".to_string(), r"C:\KEEP\b.txt".to_string()],
        RuleScope::Files,
        &rules,
        Selection::AllUnprotected,
    );

    assert!(prepared.candidates.is_empty());
    assert_eq!(prepared.skipped_protected.len(), 2);
    assert_eq!(prepared.total, 2);
}
