use scourgify::config::{
    app_mode_named, normalize_language, AppMode, AutoCleanPolicy, AutoCleanSchedule, CloseBehavior,
    Config, ScheduleError, ThemePreference,
};

#[test]
fn config_normalizes_supported_languages() {
    assert_eq!(normalize_language("en"), "en-US");
    assert_eq!(normalize_language("fr-FR"), "fr-FR");
    assert_eq!(normalize_language("ru_RU"), "ru-RU");
    assert_eq!(normalize_language("zh-HK"), "zh-TW");
    assert_eq!(normalize_language("zh-Hans-CN"), "zh-CN");
    assert_eq!(normalize_language("unknown"), "en-US");
}

#[test]
fn mod_normalizes_supported_languages() {
    assert_eq!(normalize_language("en"), "en-US");
    assert_eq!(normalize_language("fr-FR"), "fr-FR");
    assert_eq!(normalize_language("ru_RU"), "ru-RU");
    assert_eq!(normalize_language("zh-HK"), "zh-TW");
    assert_eq!(normalize_language("zh-Hans-CN"), "zh-CN");
    assert_eq!(normalize_language("unknown"), "en-US");
}

#[test]
fn validates_auto_clean_schedule_bounds() {
    assert!(AutoCleanSchedule::EveryHours { hours: 1 }.validate().is_ok());
    assert!(AutoCleanSchedule::EveryHours { hours: 168 }.validate().is_ok());
    assert!(AutoCleanSchedule::DailyAt { hour: 23, minute: 59 }.validate().is_ok());
    assert!(AutoCleanSchedule::EveryHours { hours: 0 }.validate().is_err());
    assert!(AutoCleanSchedule::EveryHours { hours: 169 }.validate().is_err());
    assert!(AutoCleanSchedule::DailyAt { hour: 24, minute: 0 }.validate().is_err());
    assert!(AutoCleanSchedule::DailyAt { hour: 0, minute: 60 }.validate().is_err());
}

#[test]
fn new_config_defaults_to_dashboard_mode() {
    assert_eq!(Config::new("en-US".to_string()).app_mode, AppMode::Dashboard);
}

#[test]
fn new_config_holds_the_documented_defaults() {
    let config = Config::new("zh-TW".to_string());

    assert_eq!(config.language, "zh-TW");
    assert!(!config.auto_start);
    assert!(!config.privacy_mode);
    assert!(config.privacy_mode_cleanup_links);
    assert_eq!(config.close_behavior, CloseBehavior::Hide);
    assert_eq!(config.theme, ThemePreference::System);
    assert!(config.show_recent_files);
    assert!(config.show_frequent_folders);
    assert!(config.notifications_enabled);
    assert!(config.notify_operation_complete);
    assert!(config.notify_inactive_operation_complete);
    assert!(!config.notify_active_operation_complete);
    assert!(config.notify_partial_failure);
    assert!(config.confirm_destructive_actions);
    assert!(config.smart_clean_confirm);
    assert_eq!(config.history_retention, 0);
    assert_eq!(config.auto_clean, AutoCleanPolicy::Disabled);
    assert_eq!(config.auto_clean_last_run, None);
}

#[test]
fn removed_minimal_mode_reads_as_tray_mode() {
    assert_eq!(app_mode_named("minimal"), Some(AppMode::Tray));
    assert_eq!(app_mode_named("tray"), Some(AppMode::Tray));
    assert_eq!(app_mode_named("grid"), Some(AppMode::Grid));
    assert_eq!(app_mode_named("dashboard"), Some(AppMode::Dashboard));
    assert_eq!(app_mode_named("sidebar"), None);
}

#[test]
fn migrated_schedules_stay_valid_and_startup_runs_become_disabled() {
    assert_eq!(AutoCleanSchedule::OnStartup.migrate(), AutoCleanPolicy::Disabled);
    assert_eq!(AutoCleanSchedule::Disabled.migrate(), AutoCleanPolicy::Disabled);
    assert_eq!(
        AutoCleanSchedule::EveryHours { hours: 6 }.migrate(),
        AutoCleanPolicy::EveryHours { hours: 6 }
    );
    assert_eq!(
        AutoCleanSchedule::DailyAt { hour: 8, minute: 30 }.migrate(),
        AutoCleanPolicy::DailyAt { hour: 8, minute: 30 }
    );
}

#[test]
fn invalid_policies_name_their_bound() {
    let mut config = Config::new("en-US".to_string());
    config.auto_clean = AutoCleanPolicy::EveryHours { hours: 0 };
    let error = config.validate().unwrap_err();
    assert!(matches!(error, ScheduleError::IntervalOutOfRange));
    config.auto_clean = AutoCleanPolicy::DailyAt { hour: 7, minute: 0 };
    assert!(config.validate().is_ok());
}
