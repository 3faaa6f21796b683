use scourgify::auto_clean::{AutoCleanResult, AutoCleanSectionResult};
use scourgify::config::Config;
use scourgify::notifier::{
    auto_clean_notification, notification_body, partial_failure_notified, window_inactive,
    AutoCleanNotification,
};
use scourgify::quick_access::QaBatchResult;

fn result(with_failure: bool) -> AutoCleanResult {
    AutoCleanResult {
        recent: AutoCleanSectionResult { result: Some(QaBatchResult::default()), error: None },
        frequent: AutoCleanSectionResult { result: Some(QaBatchResult::default()), error: None },
        total: 0,
        succeeded: 0,
        failed: usize::from(with_failure),
        warnings: 0,
        skipped_protected: 0,
        section_errors: 0,
        history_errors: 0,
    }
}

#[test]
fn auto_clean_notifications_follow_result_and_window_preferences() {
    let mut config = Config::new("en-US".to_string());
    let complete = result(false);
    let partial = result(true);

    assert_eq!(
        auto_clean_notification(&config, &complete, true),
        Some(AutoCleanNotification::Complete)
    );
    assert_eq!(auto_clean_notification(&config, &complete, false), None);
    assert_eq!(
        auto_clean_notification(&config, &partial, false),
        Some(AutoCleanNotification::PartialFailure)
    );

    config.notifications_enabled = false;
    assert_eq!(auto_clean_notification(&config, &partial, true), None);
}

#[test]
fn notification_bodies_report_the_counts() {
    let mut r = result(true);
    r.total = 5;
    r.succeeded = 3;
    r.warnings = 2;
    r.section_errors = 1;
    assert_eq!(
        notification_body(AutoCleanNotification::Complete, &r),
        "Auto-clean completed: 3 of 5 matching items removed."
    );
    assert_eq!(
        notification_body(AutoCleanNotification::PartialFailure, &r),
        "Auto-clean completed with issues: 3 removed, 1 item failures, 2 warnings, 1 section failures, 0 history failures."
    );
}

#[test]
fn window_activity_and_partial_failure_preferences() {
    assert!(window_inactive(false, Some(true), Some(true)));
    assert!(window_inactive(true, None, Some(true)));
    assert!(window_inactive(true, Some(true), Some(false)));
    assert!(!window_inactive(true, Some(true), Some(true)));
    let mut config = Config::new("en-US".to_string());
    assert!(partial_failure_notified(&config));
    config.notify_partial_failure = false;
    assert!(!partial_failure_notified(&config));
}
