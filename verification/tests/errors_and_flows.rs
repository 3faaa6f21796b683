use scourgify::error::IncidentIds;
use scourgify::auto_clean::AutoCleanError;
use scourgify::cleanup::{empty_current, remove_selected, smart_clean, CleanupFailure};
use scourgify::commands::{
    about_close_action, auto_clean_command_error, cleanup_error, command_failure, database_error,
    history_error, state_error, AboutClose, CleanupFailureSource, CommandFailure,
    HistoryFailureSource, RuleFailureSource,
};
use scourgify::config::{AppMode, AutoCleanPolicy};
use scourgify::error::{ErrorCode, WincentErrorKind};
use scourgify::history::{CleanSource, NewCleanRecord};
use scourgify::history_runs::{run_page, CleanupAction, CleanupRunStatus, CleanupTrigger};
use scourgify::privacy::PrivacyModeState;
use scourgify::quick_access::{visibility_name, QaBatchResult, QaItem, VisibilityTarget};
use scourgify::rules::{Rule, RuleScope, RuleType};
use scourgify::scheduler::{
    finished_event, interval_attempt, monitor_should_report, monitor_should_retry,
    monitor_should_run,
};
use scourgify::status::{latest_run_query, latest_run_trigger, runtime_status, BackendMode, RuntimeState};
use std::cell::RefCell;

fn rule(id: i64, keyword: &str, rule_type: RuleType) -> Rule {
    Rule {
        id,
        keyword: keyword.to_string(),
        rule_type,
        scope: RuleScope::All,
        enabled: true,
        created_at: String::new(),
    }
}

fn item(path: &str) -> QaItem {
    QaItem { path: path.to_string(), name: path.to_string(), last_interaction_at: None, pinned: None }
}

fn removed_all(paths: Vec<String>) -> Result<QaBatchResult, String> {
    Ok(QaBatchResult { total: paths.len(), succeeded: paths, ..QaBatchResult::default() })
}

#[test]
fn command_errors_carry_their_code_message_and_retry_advice() {
    let e = state_error(&mut IncidentIds::new(7), "get_config", "poisoned");
    assert_eq!((e.code, e.message.as_str(), e.retryable), (ErrorCode::InternalUnexpected, "Application state is temporarily unavailable.", true));
    let e = cleanup_error(&mut IncidentIds::new(7), "smart_clean", CleanupFailureSource::InvalidType, "bad");
    assert_eq!((e.code, e.retryable), (ErrorCode::ValidationInvalidArgument, false));
    let e = cleanup_error(&mut IncidentIds::new(7), "smart_clean", CleanupFailureSource::QuickAccess(Some(WincentErrorKind::Timeout)), "slow");
    assert_eq!(e.code, ErrorCode::QuickAccessTimeout);
    let e = cleanup_error(&mut IncidentIds::new(7), "smart_clean", CleanupFailureSource::DatabaseUnavailable, "gone");
    assert_eq!(e.message, "The cleanup database is unavailable.");
    let e = auto_clean_command_error(&mut IncidentIds::new(7), Some(AutoCleanError::AlreadyRunning), "busy");
    assert_eq!(e.code, ErrorCode::AutoCleanAlreadyRunning);
    let e = auto_clean_command_error(&mut IncidentIds::new(7), None, "x");
    assert_eq!(e.message, "Automatic cleanup could not be completed.");
    let e = history_error(&mut IncidentIds::new(7), "get_clean_records", HistoryFailureSource::InvalidRequest, "page");
    assert_eq!(e.message, "The history request is invalid.");
    let e = database_error(&mut IncidentIds::new(7), "add_rule", RuleFailureSource::EmptyKeyword, "empty");
    assert_eq!(e.code, ErrorCode::ValidationInvalidArgument);
    let e = command_failure(&mut IncidentIds::new(7), CommandFailure::PrivacyExitPersist, "disk full");
    assert_eq!(e.message, "Privacy mode was disabled, but the preference could not be saved.");
    assert_eq!(about_close_action(Some(AppMode::Dashboard)), AboutClose::NavigateHome);
    assert_eq!(about_close_action(None), AboutClose::HideWindow);
}

#[test]
fn manual_removal_records_history_for_each_removed_path() {
    let recorded = RefCell::new(Vec::<NewCleanRecord>::new());
    let rules = [rule(1, "keep", RuleType::Whitelist), rule(2, "temp", RuleType::Blacklist)];
    let result = remove_selected(
        "recent",
        vec![r"C:\keep\a.txt".to_string(), r"C:\Temp\b.txt".to_string(), r"C:\c.txt".to_string()],
        &rules,
        removed_all,
        |records| {
            recorded.borrow_mut().extend(records);
            Ok(())
        },
    )
    .unwrap();

    assert_eq!(result.total, 3);
    assert_eq!(result.skipped_protected, vec![r"C:\keep\a.txt".to_string()]);
    assert_eq!(result.succeeded.len(), 2);
    let records = recorded.into_inner();
    assert_eq!(records.len(), 2);
    assert_eq!(records[0].item_type, "recent_file");
    assert_eq!(records[0].rule_id, Some(2));
    assert_eq!(records[0].source, CleanSource::Manual);
    assert_eq!(records[1].rule_keyword, None);
}

#[test]
fn history_failures_are_reported_without_failing_the_cleanup() {
    let result = smart_clean(
        "frequent",
        vec![item(r"C:\Temp"), item(r"C:\Work")],
        &[rule(2, "temp", RuleType::Blacklist)],
        CleanSource::Auto,
        removed_all,
        |_records| Err("database busy".to_string()),
    )
    .unwrap();
    assert_eq!(result.total, 1);
    assert_eq!(result.succeeded, vec![r"C:\Temp".to_string()]);
    assert_eq!(result.history_error.as_deref(), Some("database busy"));
}

#[test]
fn invalid_types_and_removal_failures_are_told_apart() {
    let invalid = empty_current("all", vec![item("a")], &[], removed_all, |_| Ok(()));
    assert!(matches!(invalid, Err(CleanupFailure::Invalid(_))));
    let failed = empty_current(
        "recent",
        vec![item("a")],
        &[],
        |_paths| Err::<QaBatchResult, String>("locked".to_string()),
        |_| Ok(()),
    );
    assert_eq!(failed, Err(CleanupFailure::Removal("locked".to_string())));
    let nothing = smart_clean("recent", vec![item("a")], &[], CleanSource::Manual, removed_all, |_| {
        panic!("nothing is recorded")
    })
    .unwrap();
    assert_eq!(nothing.total, 0);
}

#[test]
fn status_queries_and_snapshots() {
    assert_eq!(latest_run_trigger(&AutoCleanPolicy::Disabled), None);
    assert_eq!(latest_run_trigger(&AutoCleanPolicy::Monitor), Some(CleanupTrigger::Monitor));
    assert_eq!(latest_run_trigger(&AutoCleanPolicy::DailyAt { hour: 1, minute: 0 }), Some(CleanupTrigger::Scheduled));
    let query = latest_run_query(CleanupTrigger::Scheduled);
    assert_eq!((query.page, query.page_size), (1, 1));
    assert_eq!(query.filter.action, Some(CleanupAction::AutoClean));

    let rules = [rule(1, "x", RuleType::Blacklist)];
    let snapshot = runtime_status(
        false,
        BackendMode::Mock,
        None,
        Some(&rules),
        &AutoCleanPolicy::Disabled,
        Some(false),
        None,
        PrivacyModeState::Inactive,
        true,
        true,
    );
    assert_eq!(snapshot.database.state, RuntimeState::Error);
    assert_eq!(snapshot.qa_monitoring.state, RuntimeState::Inactive);
    assert_eq!(snapshot.overall, RuntimeState::Error);
    assert_eq!(snapshot.auto_clean.policy, "disabled");
}

#[test]
fn monitor_and_scheduler_decisions() {
    assert!(monitor_should_run(&AutoCleanPolicy::Monitor));
    assert!(!monitor_should_run(&AutoCleanPolicy::Disabled));
    assert!(monitor_should_retry(&AutoCleanError::AlreadyRunning));
    assert!(!monitor_should_retry(&AutoCleanError::PrivacyModeActive));
    assert_eq!(interval_attempt(&AutoCleanPolicy::EveryHours { hours: 3 }, Some(1), 9), Some(9));
    assert_eq!(interval_attempt(&AutoCleanPolicy::Monitor, Some(1), 9), Some(1));
    let result = scourgify::auto_clean::run_sections(|_q: &str, _s: CleanSource| {
        Ok::<QaBatchResult, String>(QaBatchResult::default())
    });
    assert!(!monitor_should_report(&result));
    let event = finished_event(77, &result);
    assert_eq!((event.completed_at, event.total), (77, 0));
    assert!(run_page(Vec::new(), -1, 1, 10).is_err());
    assert_eq!(run_page(Vec::new(), 4, 2, 10).unwrap().total, 4);
    assert_eq!(visibility_name(VisibilityTarget::StartRecommended), "start_recommended");
    let _ = CleanupRunStatus::Running;
}
