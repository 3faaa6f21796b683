use scourgify::config::{AppMode, AutoCleanPolicy, CloseBehavior, Config, ScheduleError};
use scourgify::privacy::LockResult;
use scourgify::shell::{
    auto_start_to_store, close_hides_window, is_light_theme_value, navigation_script,
    plan_settings_update, restore_privacy_notice, second_instance_action, window_strategy,
    SecondInstanceAction, WindowStrategy,
};

#[test]
fn maps_registry_value_to_theme() {
    assert!(is_light_theme_value(Some(1)));
    assert!(!is_light_theme_value(Some(0)));
    assert!(!is_light_theme_value(None));
}

#[test]
fn modes_show_or_hide_the_main_window() {
    match window_strategy(AppMode::Dashboard) {
        WindowStrategy::Show(layout) => {
            assert_eq!(layout.route, "#/");
            assert_eq!((layout.width, layout.height), (1040, 720));
            assert_eq!((layout.min_width, layout.min_height), (1040, 670));
        }
        WindowStrategy::Hide => panic!("the dashboard is shown"),
    }
    match window_strategy(AppMode::Grid) {
        WindowStrategy::Show(layout) => {
            assert_eq!(layout.route, "#/grid");
            assert_eq!((layout.width, layout.height), (600, 400));
            assert_eq!((layout.min_width, layout.min_height), (400, 320));
        }
        WindowStrategy::Hide => panic!("the grid is shown"),
    }
    assert_eq!(window_strategy(AppMode::Tray), WindowStrategy::Hide);
    assert_eq!(navigation_script("#/grid"), "window.location.hash = '#/grid'");
}

#[test]
fn closing_hides_unless_configured_otherwise() {
    assert!(close_hides_window(None));
    assert!(close_hides_window(Some(CloseBehavior::Hide)));
    assert!(!close_hides_window(Some(CloseBehavior::Quit)));
}

#[test]
fn a_second_launch_focuses_the_dashboard_or_informs() {
    assert_eq!(second_instance_action(Some(AppMode::Dashboard)), SecondInstanceAction::ShowDashboard);
    assert_eq!(
        second_instance_action(Some(AppMode::Tray)),
        SecondInstanceAction::Inform("Scourgify is already running.")
    );
    assert_eq!(
        second_instance_action(None),
        SecondInstanceAction::Inform("Scourgify is already running.")
    );
}

#[test]
fn restoring_privacy_mode_reports_partial_and_failed_locks() {
    assert_eq!(restore_privacy_notice(Ok(LockResult::Full)), None);
    let partial = restore_privacy_notice(Ok(LockResult::Partial)).unwrap();
    assert_eq!(partial.alert, "Privacy mode was restored with partial protection.");
    assert_eq!(partial.notification, "Privacy mode was restored with partial protection.");
    let failed = restore_privacy_notice(Err("locked".to_string())).unwrap();
    assert_eq!(failed.alert, "Failed to restore privacy mode.\n\nlocked");
    assert_eq!(failed.notification, "Failed to restore privacy mode: locked");
}

#[test]
fn auto_start_is_stored_only_when_the_launcher_differs() {
    assert_eq!(auto_start_to_store(false, Some(true)), Some(true));
    assert_eq!(auto_start_to_store(true, Some(true)), None);
    assert_eq!(auto_start_to_store(true, None), None);
}

#[test]
fn settings_updates_plan_their_side_effects() {
    let mut current = Config::new("en-US".to_string());
    current.history_retention = 500;
    current.auto_clean_last_run = Some(1_000);
    let mut next = Config::new("zh_Hant-HK".to_string());
    next.history_retention = 100;
    next.auto_start = true;
    next.auto_clean = AutoCleanPolicy::EveryHours { hours: 6 };
    next.auto_clean_last_run = None;

    let update = plan_settings_update(&current, next).unwrap();
    assert_eq!(update.config.language, "zh-TW");
    assert_eq!(update.config.auto_clean_last_run, Some(1_000));
    assert_eq!(update.trim_history_to, Some(100));
    assert_eq!(update.set_auto_start, Some(true));
    assert!(update.reschedule);
    assert!(update.language_changed);

    let unchanged = plan_settings_update(&current, Config { history_retention: 900, ..clone_config(&current) })
        .unwrap();
    assert_eq!(unchanged.trim_history_to, None);
    assert!(!unchanged.reschedule);
    assert!(!unchanged.language_changed);

    let mut invalid = Config::new("en-US".to_string());
    invalid.auto_clean = AutoCleanPolicy::DailyAt { hour: 25, minute: 0 };
    assert!(matches!(plan_settings_update(&current, invalid), Err(ScheduleError::HourOutOfRange)));
}

fn clone_config(c: &Config) -> Config {
    c.clone()
}
