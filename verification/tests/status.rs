use scourgify::config::AutoCleanPolicy;
use scourgify::history_runs::CleanupRunStatus;
use scourgify::privacy::PrivacyModeState;
use scourgify::status::{auto_clean_state, merge_last_run, overall_state, policy_name, RuntimeState};

#[test]
fn overall_ignores_inactive_optional_features() {
    assert_eq!(
        overall_state(&[
            RuntimeState::Healthy,
            RuntimeState::Healthy,
            RuntimeState::Inactive,
            RuntimeState::Inactive,
        ]),
        RuntimeState::Healthy
    );
}

#[test]
fn monitor_policy_reflects_watcher_health() {
    let state = auto_clean_state(
        &AutoCleanPolicy::Monitor,
        Some(false),
        None,
        PrivacyModeState::Inactive,
        RuntimeState::Healthy,
        RuntimeState::Healthy,
        RuntimeState::Degraded,
        true,
        true,
    );

    assert_eq!(state, RuntimeState::Degraded);
}

#[test]
fn privacy_mode_pauses_enabled_auto_clean() {
    let state = auto_clean_state(
        &AutoCleanPolicy::EveryHours { hours: 6 },
        Some(false),
        None,
        PrivacyModeState::ActiveFull,
        RuntimeState::Healthy,
        RuntimeState::Healthy,
        RuntimeState::Healthy,
        true,
        true,
    );

    assert_eq!(state, RuntimeState::Paused);
}

#[test]
fn failed_last_run_marks_an_available_worker_as_error() {
    assert_eq!(
        merge_last_run(RuntimeState::Healthy, Some(CleanupRunStatus::Failed)),
        RuntimeState::Error
    );
}

#[test]
fn overall_state_takes_the_worst_state() {
    assert_eq!(
        overall_state(&[RuntimeState::Running, RuntimeState::Degraded, RuntimeState::Healthy]),
        RuntimeState::Degraded
    );
    assert_eq!(
        overall_state(&[RuntimeState::Degraded, RuntimeState::Error]),
        RuntimeState::Error
    );
    assert_eq!(overall_state(&[]), RuntimeState::Healthy);
}

#[test]
fn policies_have_stable_names() {
    assert_eq!(policy_name(&AutoCleanPolicy::Disabled), "disabled");
    assert_eq!(policy_name(&AutoCleanPolicy::Monitor), "monitor");
    assert_eq!(policy_name(&AutoCleanPolicy::EveryHours { hours: 2 }), "every_hours");
    assert_eq!(policy_name(&AutoCleanPolicy::DailyAt { hour: 1, minute: 2 }), "daily_at");
}
