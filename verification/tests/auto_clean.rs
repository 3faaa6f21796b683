use scourgify::auto_clean::{run, run_locked, AutoCleanRunError};
use scourgify::history_runs::RunCompletion;
use scourgify::error::IncidentIds;
use scourgify::auto_clean::{lock_refusal, running_state, LockFailure};
use scourgify::auto_clean::{
    completion_from_result, ensure_allowed, run_sections, AutoCleanError, AutoCleanState,
};
use scourgify::error::{CommandError, ErrorCode};
use scourgify::history::CleanSource;
use scourgify::history_runs::CleanupRunStatus;
use scourgify::privacy::PrivacyModeState;
use scourgify::quick_access::{QaBatchFailure, QaBatchResult};

#[test]
fn runs_both_sections_in_order_and_aggregates_results() {
    let mut calls = Vec::new();
    let result = run_sections(|qa_type: &str, source: CleanSource| {
        calls.push((qa_type.to_string(), source));
        if qa_type == "recent" {
            Ok(QaBatchResult {
                total: 3,
                succeeded: vec![r"C:\Temp\a.txt".to_string()],
                failed: vec![QaBatchFailure {
                    path: r"C:\Temp\b.txt".to_string(),
                    error: CommandError::expected(
                        &mut IncidentIds::new(7),
                        "test",
                        ErrorCode::QuickAccessOperationFailed,
                        "The Quick Access operation could not be completed.",
                        false,
                        "in use",
                    ),
                }],
                warnings: Vec::new(),
                skipped_protected: vec![r"C:\Work".to_string()],
                history_error: Some("database busy".to_string()),
            })
        } else {
            Err("frequent scan failed".to_string())
        }
    });

    assert_eq!(
        calls,
        [
            ("recent".to_string(), CleanSource::Auto),
            ("frequent".to_string(), CleanSource::Auto),
        ]
    );
    assert_eq!(result.total, 3);
    assert_eq!(result.succeeded, 1);
    assert_eq!(result.failed, 1);
    assert_eq!(result.warnings, 0);
    assert_eq!(result.skipped_protected, 1);
    assert_eq!(result.section_errors, 1);
    assert_eq!(result.history_errors, 1);
    assert!(result.has_failures());
    assert_eq!(result.frequent.error.as_deref(), Some("frequent scan failed"));
}

#[test]
fn rejects_unavailable_database_and_active_privacy() {
    assert_eq!(
        ensure_allowed(false, PrivacyModeState::Inactive),
        Err(AutoCleanError::DatabaseUnavailable)
    );
    assert_eq!(
        ensure_allowed(true, PrivacyModeState::ActiveFull),
        Err(AutoCleanError::PrivacyModeActive)
    );
    assert_eq!(ensure_allowed(true, PrivacyModeState::Inactive), Ok(()));
}

#[test]
fn allows_only_one_run_at_a_time() {
    let state = AutoCleanState::default();
    let first = state.begin().unwrap();
    assert!(matches!(state.begin(), Err(AutoCleanError::AlreadyRunning)));
    assert_eq!(state.is_running(), Ok(true));
    drop(first);
    assert_eq!(state.is_running(), Ok(false));
    assert!(state.begin().is_ok());
}

#[test]
fn a_run_with_removals_and_a_failed_section_is_partial() {
    let result = run_sections(|qa_type: &str, _source: CleanSource| {
        if qa_type == "recent" {
            Ok(QaBatchResult {
                total: 2,
                succeeded: vec!["a".to_string(), "b".to_string()],
                ..QaBatchResult::default()
            })
        } else {
            Err("scan failed")
        }
    });
    let completion = completion_from_result(&result);

    assert_eq!(completion.requested, 2);
    assert_eq!(completion.succeeded, 2);
    assert_eq!(completion.section_errors, 1);
    assert_eq!(completion.status(), CleanupRunStatus::Partial);
    assert!(result.has_issues());
}

#[test]
fn error_messages_name_the_refusal() {
    assert_eq!(AutoCleanError::AlreadyRunning.message(), "Auto-clean is already running.");
    assert_eq!(
        AutoCleanError::DatabaseUnavailable.message(),
        "Database is unavailable; auto-clean cannot run."
    );
    assert_eq!(
        AutoCleanError::PrivacyModeActive.message(),
        "Privacy mode is active; auto-clean cannot run."
    );
}

#[test]
fn lock_failures_map_to_refusals_and_running_state() {
    assert_eq!(lock_refusal(LockFailure::WouldBlock), AutoCleanError::AlreadyRunning);
    assert_eq!(lock_refusal(LockFailure::Poisoned), AutoCleanError::StateUnavailable);
    assert_eq!(running_state(Ok(())), Ok(false));
    assert_eq!(running_state(Err(LockFailure::WouldBlock)), Ok(true));
    assert_eq!(running_state(Err(LockFailure::Poisoned)), Err(AutoCleanError::StateUnavailable));
}

fn one_removal() -> QaBatchResult {
    QaBatchResult {
        total: 1,
        succeeded: vec![r"C:\Temp\a.txt".to_string()],
        failed: Vec::new(),
        warnings: Vec::new(),
        skipped_protected: Vec::new(),
        history_error: None,
    }
}

#[test]
fn a_locked_run_begins_cleans_both_sections_and_finishes() {
    let mut calls: Vec<String> = Vec::new();
    let mut finished: Option<(i64, RunCompletion)> = None;
    let result = run_locked(
        Ok(()),
        || Ok::<i64, String>(41),
        |qa_type: &str, _source: CleanSource, run_id: i64| {
            calls.push(format!("{qa_type}@{run_id}"));
            Ok::<QaBatchResult, String>(one_removal())
        },
        |run_id: i64, completion: RunCompletion| {
            finished = Some((run_id, completion));
            Err::<(), String>("disk full".to_string())
        },
    )
    .unwrap();
    assert_eq!(calls, vec!["recent@41".to_string(), "frequent@41".to_string()]);
    let (run_id, completion) = finished.unwrap();
    assert_eq!(run_id, 41);
    assert_eq!(completion.requested, 2);
    assert_eq!(completion.succeeded, 2);
    assert_eq!(result.total, 2);
    assert_eq!(result.history_errors, 1);
}

#[test]
fn a_run_without_the_lock_is_refused_before_anything_starts() {
    let outcome = run_locked(
        Err(LockFailure::WouldBlock),
        || -> Result<i64, String> { panic!("no run may begin") },
        |_q: &str, _s: CleanSource, _id: i64| -> Result<QaBatchResult, String> { panic!("nothing may be cleaned") },
        |_id: i64, _c: RunCompletion| -> Result<(), String> { panic!("nothing may be finished") },
    );
    assert!(matches!(outcome, Err(AutoCleanRunError::Refused(AutoCleanError::AlreadyRunning))));
    let outcome = run_locked(
        Err(LockFailure::Poisoned),
        || Ok::<i64, String>(1),
        |_q: &str, _s: CleanSource, _id: i64| Ok::<QaBatchResult, String>(one_removal()),
        |_id: i64, _c: RunCompletion| Ok::<(), String>(()),
    );
    assert!(matches!(outcome, Err(AutoCleanRunError::Refused(AutoCleanError::StateUnavailable))));
    let outcome = run_locked(
        Ok(()),
        || Err::<i64, String>("no database".to_string()),
        |_q: &str, _s: CleanSource, _id: i64| Ok::<QaBatchResult, String>(one_removal()),
        |_id: i64, _c: RunCompletion| Ok::<(), String>(()),
    );
    assert!(matches!(outcome, Err(AutoCleanRunError::RunNotStarted(ref e)) if e == "no database"));
}

#[test]
fn run_takes_the_lock_and_refuses_while_another_run_holds_it() {
    let state = AutoCleanState::default();
    let held = state.begin().unwrap();
    let outcome = run(
        true,
        PrivacyModeState::Inactive,
        &state,
        || Ok::<i64, String>(1),
        |_q: &str, _s: CleanSource, _id: i64| Ok::<QaBatchResult, String>(one_removal()),
        |_id: i64, _c: RunCompletion| Ok::<(), String>(()),
    );
    assert!(matches!(outcome, Err(AutoCleanRunError::Refused(AutoCleanError::AlreadyRunning))));
    drop(held);
    let result = run(
        true,
        PrivacyModeState::Inactive,
        &state,
        || Ok::<i64, String>(1),
        |_q: &str, _s: CleanSource, _id: i64| Ok::<QaBatchResult, String>(one_removal()),
        |_id: i64, _c: RunCompletion| Ok::<(), String>(()),
    )
    .unwrap();
    assert_eq!(result.succeeded, 2);
    assert_eq!(state.is_running(), Ok(false));
}
