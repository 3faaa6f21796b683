use scourgify::error::IncidentIds;
use scourgify::mock::{interaction_window, random_timestamp, TIMESTAMP_WINDOW_MS};
use scourgify::error::ErrorCode;
use scourgify::mock::{
    path_kind, unique_component, MockData, MockError, MockScenario, FREQUENT_FOLDER_COUNT,
    RECENT_FILE_COUNT,
};
use scourgify::quick_access::{PathKind, QuickAccessError};
use scourgify::mock::mock_rule;
use scourgify::rules::{RuleScope, RuleType};
use scourgify::mock::{check_mock_rule_count, mock_error, mock_mode_guard};
use scourgify::mock::{
    mock_event_action, switch_rollback, MockEventAction, MockEventKind, MockSwitchStep,
    MockSwitchUndo,
};

#[test]
fn scenarios_keep_fixed_counts_and_apply_partial_failures() {
    let mut backend = MockData::seed(MockScenario::Normal);
    assert_eq!(backend.recent.len(), RECENT_FILE_COUNT);
    assert_eq!(backend.frequent.len(), FREQUENT_FOLDER_COUNT);

    backend.set_scenario(MockScenario::PartialFailure);
    let paths = backend.list_items("recent").unwrap().into_iter().map(|item| item.path).collect();
    let result = backend.remove_items(&mut IncidentIds::new(7), "recent", paths).unwrap();

    assert_eq!(result.succeeded.len(), RECENT_FILE_COUNT / 2);
    assert_eq!(result.failed.len(), RECENT_FILE_COUNT / 2);
    assert_eq!(backend.list_items("recent").unwrap().len(), RECENT_FILE_COUNT / 2);
    assert!(result
        .failed
        .iter()
        .all(|f| f.error.code == ErrorCode::QuickAccessPermissionDenied && !f.error.retryable));
}

#[test]
fn manual_change_toggles_an_item_and_revision() {
    let mut backend = MockData::seed(MockScenario::Normal);
    let before_first = backend.frequent[0].path.clone();
    let before_len = backend.frequent.len();
    let before_revision = backend.revision;

    backend.trigger_change("frequent").unwrap();

    assert_eq!(backend.frequent.len(), before_len);
    assert_ne!(backend.frequent[0].path, before_first);
    assert_eq!(backend.revision, before_revision + 1);
    assert!(backend.frequent[0].path.starts_with(r"C:\Mock\Folders\10-"));
}

#[test]
fn the_empty_scenario_holds_nothing_and_gains_an_item_on_change() {
    let mut backend = MockData::seed(MockScenario::Empty);
    assert!(backend.list_items("all").unwrap().is_empty());
    backend.trigger_change("recent").unwrap();
    assert_eq!(backend.recent.len(), 1);
    assert!(backend.recent[0].path.starts_with(r"C:\Mock\Recent\22-"));
    assert_eq!(
        backend.trigger_change("all"),
        Err(QuickAccessError::UnsupportedWriteType("all".to_string()))
    );
}

#[test]
fn generated_items_are_named_after_their_path() {
    let backend = MockData::seed(MockScenario::Normal);
    for (index, item) in backend.recent.iter().enumerate() {
        assert!(item.path.starts_with(&format!(r"C:\Mock\Recent\{:02}-", index + 1)));
        assert_eq!(item.name, item.path.rsplit('\\').next().unwrap());
        assert!(item.last_interaction_at.is_some());
    }
    for item in &backend.frequent {
        assert!(item.pinned.is_some());
    }
}

#[test]
fn mock_paths_are_classified_by_their_shape() {
    assert_eq!(path_kind("   "), PathKind::Missing);
    assert_eq!(path_kind(r"C:\Mock\Folders\01-Work"), PathKind::Directory);
    assert_eq!(path_kind(r"D:\Stuff\"), PathKind::Directory);
    assert_eq!(path_kind(r"C:\Mock\Recent\01-a"), PathKind::File);
    assert_eq!(path_kind(r"D:\notes.docx"), PathKind::File);
    assert_eq!(path_kind(r"D:\image.png"), PathKind::Missing);
}

#[test]
fn unique_components_are_sanitized_and_numbered() {
    assert_eq!(unique_component(0, "a<b>:c.txt", "item.txt"), "01-a-b--c.txt");
    assert_eq!(unique_component(9, " ..report.. ", "item.txt"), "10-report");
    assert_eq!(unique_component(2, " . ", "Folder"), "03-Folder");
}

#[test]
fn adding_checks_kind_section_and_duplicates() {
    let mut backend = MockData::seed(MockScenario::Empty);
    assert_eq!(
        backend.add_item("recent", r"D:\image.png"),
        Err(MockError::Rejected(QuickAccessError::ItemNotFound(r"D:\image.png".to_string())))
    );
    assert_eq!(
        backend.add_item("recent", r"D:\Work\"),
        Err(MockError::Rejected(QuickAccessError::NotAFile(r"D:\Work\".to_string())))
    );
    assert_eq!(
        backend.add_item("frequent", r"D:\a.txt"),
        Err(MockError::Rejected(QuickAccessError::NotAFolder(r"D:\a.txt".to_string())))
    );
    assert_eq!(
        backend.add_item("all", r"D:\a.txt"),
        Err(MockError::Rejected(QuickAccessError::UnsupportedWriteType("all".to_string())))
    );
    backend.add_item("recent", r"D:\a.txt").unwrap();
    assert_eq!(backend.recent[0].name, "a.txt");
    assert_eq!(backend.recent[0].pinned, None);
    let duplicate = backend.add_item("recent", r"d:\A.txt").unwrap_err();
    assert_eq!(duplicate.message(), r"mock item already exists: d:\A.txt");
    assert_eq!(
        backend.add_item("recent", r"D:\A.TXT").unwrap_err().message(),
        r"item path does not exist: D:\A.TXT"
    );
    backend.add_item("frequent", r"C:\Mock\Folders\x").unwrap();
    assert_eq!(backend.frequent[0].pinned, Some(true));
}

#[test]
fn removal_is_case_insensitive_and_warns_under_its_scenario() {
    let mut backend = MockData::seed(MockScenario::PostMutationWarning);
    let first = backend.recent[0].path.to_uppercase();
    let second = backend.recent[1].path.clone();
    let revision = backend.revision;
    let result = backend.remove_items(&mut IncidentIds::new(7), "recent", vec![first.clone(), second]).unwrap();

    assert_eq!(result.total, 2);
    assert_eq!(result.succeeded.len(), 2);
    assert_eq!(result.warnings.len(), 1);
    assert_eq!(result.warnings[0].path, first);
    assert_eq!(result.warnings[0].warning.incident_id, "mock-warning");
    assert_eq!(backend.recent.len(), RECENT_FILE_COUNT - 2);
    assert_eq!(backend.revision, revision + 1);

    let unchanged = backend.remove_items(&mut IncidentIds::new(7), "recent", vec!["nothing".to_string()]).unwrap();
    assert_eq!(unchanged.succeeded, vec!["nothing".to_string()]);
    assert!(backend.remove_items(&mut IncidentIds::new(7), "all", Vec::new()).is_err());
}

#[test]
fn restoring_defaults_empties_the_chosen_sections() {
    let mut backend = MockData::seed(MockScenario::Normal);
    let result = backend.restore_defaults("frequent").unwrap();
    assert!(result.success);
    assert!(result.recent.is_none());
    let frequent = result.frequent.unwrap();
    assert_eq!(frequent.deleted_lnk_count, 1);
    assert_eq!(frequent.raw_path_cleanup.unwrap().requested_count, 1);
    assert!(backend.frequent.is_empty());
    assert_eq!(backend.recent.len(), RECENT_FILE_COUNT);

    let all = backend.restore_defaults("all").unwrap();
    assert_eq!(all.recent.unwrap().deleted_lnk_count, 2);
    assert!(backend.recent.is_empty());
    assert_eq!(
        backend.restore_defaults("pinned"),
        Err(QuickAccessError::UnsupportedType("pinned".to_string()))
    );
}

#[test]
fn visibility_changes_one_section_at_a_time() {
    let mut backend = MockData::seed(MockScenario::Normal);
    let v = backend.set_visibility("start_recommended", false).unwrap();
    assert!(v.recent && v.frequent && !v.start_recommended);
    assert_eq!(backend.revision, 2);
    assert!(backend.set_visibility("all", true).is_err());
    backend.refresh();
    assert_eq!(backend.revision, 3);
    assert_eq!(backend.recent.len(), RECENT_FILE_COUNT);
}

#[test]
fn generates_requested_number_of_unique_mock_rules() {
    let rules = scourgify::mock::random_rules(1_000);

    assert_eq!(rules.len(), 1_000);
    assert!(rules.iter().all(|rule| !rule.keyword.trim().is_empty()));
    assert_eq!(
        rules.iter().map(|rule| rule.keyword.as_str()).collect::<std::collections::HashSet<_>>().len(),
        1_000
    );
}

#[test]
fn mock_rules_are_named_from_their_generated_parts() {

    let rule = mock_rule(7, "  report.txt ", 42, 1, true, false);
    assert_eq!(rule.keyword, "report.txt-000042-7");
    assert_eq!(rule.rule_type, RuleType::Whitelist);
    assert_eq!(rule.scope, RuleScope::Files);
    assert!(!rule.enabled);
    let blank = mock_rule(12, "   ", 999_999, 2, false, true);
    assert_eq!(blank.keyword, "item-999999-12");
    assert_eq!(blank.rule_type, RuleType::Blacklist);
    assert_eq!(blank.scope, RuleScope::Folders);
    assert_eq!(mock_rule(0, "x", 0, 0, false, true).scope, RuleScope::All);
}

#[test]
fn mock_commands_check_mode_and_rule_count() {

    assert!(mock_mode_guard(&mut IncidentIds::new(7), true).is_ok());
    let refused = mock_mode_guard(&mut IncidentIds::new(7), false).unwrap_err();
    assert_eq!(refused.code, ErrorCode::ValidationInvalidArgument);
    assert_eq!(refused.message, "Mock mode is not enabled.");
    assert!(check_mock_rule_count(&mut IncidentIds::new(7), 1).is_ok());
    assert!(check_mock_rule_count(&mut IncidentIds::new(7), 1_000).is_ok());
    assert_eq!(check_mock_rule_count(&mut IncidentIds::new(7), 0).unwrap_err().message, "The mock rule count is invalid.");
    assert!(check_mock_rule_count(&mut IncidentIds::new(7), 1_001).is_err());
    let failed = mock_error(&mut IncidentIds::new(7), "set_mock_scenario", "poisoned");
    assert_eq!(failed.code, ErrorCode::InternalUnexpected);
    assert!(failed.retryable);
}

#[test]
fn simulated_events_and_switch_rollbacks() {

    assert_eq!(mock_event_action(MockEventKind::QuickAccessRecent, 5), MockEventAction::Change("recent"));
    match mock_event_action(MockEventKind::AutoCleanFinished, 5) {
        MockEventAction::Announce(event) => {
            assert_eq!((event.completed_at, event.total, event.succeeded, event.failed), (5, 3, 2, 1));
        }
        other => panic!("unexpected action {other:?}"),
    }
    assert!(switch_rollback(MockSwitchStep::Privacy).is_empty());
    assert_eq!(switch_rollback(MockSwitchStep::Database), vec![MockSwitchUndo::RealPrivacy]);
    assert_eq!(
        switch_rollback(MockSwitchStep::Backend),
        vec![MockSwitchUndo::RealDatabase, MockSwitchUndo::RealPrivacy, MockSwitchUndo::ResumeWatchers]
    );
}

#[test]
fn interaction_times_lie_in_the_last_ninety_days() {
    assert_eq!(TIMESTAMP_WINDOW_MS, 90 * 24 * 60 * 60 * 1_000);
    assert_eq!(interaction_window(-5), (0, 0));
    assert_eq!(interaction_window(1_000), (0, 1_000));
    assert_eq!(
        interaction_window(10_000_000_000),
        (10_000_000_000 - TIMESTAMP_WINDOW_MS, 10_000_000_000)
    );
    let now = std::time::SystemTime::now()
        .duration_since(std::time::UNIX_EPOCH)
        .unwrap()
        .as_millis() as u64;
    let t = random_timestamp();
    assert!(t <= now + 1_000);
    assert!(t + TIMESTAMP_WINDOW_MS + 1_000 >= now);
}
