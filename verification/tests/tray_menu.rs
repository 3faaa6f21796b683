use scourgify::config::{AppMode, Config};
use scourgify::i18n::{canonical, language_event, supported_languages, tray_text};
use scourgify::privacy::{LockResult, PrivacyModeState};
use scourgify::tray_menu::{
    build_menu, left_click_action, menu_action, privacy_toggle_exits, privacy_toggle_failure_text,
    privacy_toggle_follow_up, LeftClickAction, MenuAction, MenuEntry,
};

#[test]
fn tray_labels_follow_the_language() {
    assert_eq!(tray_text("fr-FR").quit, "Quitter");
    assert_eq!(tray_text("zh-CN").quit, "退出");
    assert_eq!(tray_text("de-DE").quit, tray_text("en-US").quit);
    assert_eq!(canonical("ru-RU"), "ru-RU");
    assert_eq!(canonical("pt-BR"), "en-US");
    assert_eq!(language_event("xx").language, "en-US");
    assert_eq!(supported_languages().len(), 5);
}

#[test]
fn dashboard_menus_start_with_the_dashboard_entry() {
    let config = Config::new("en-US".to_string());
    let menu = build_menu(Some(&config), PrivacyModeState::Inactive, Some(true));
    assert!(matches!(menu[0], MenuEntry::Item { id: "open-dashboard", .. }));
    assert!(matches!(menu[1], MenuEntry::Separator));
    match &menu[3] {
        MenuEntry::Check(item) => {
            assert_eq!(item.id, "auto-start");
            assert!(item.checked);
        }
        other => panic!("unexpected entry {other:?}"),
    }
    assert!(matches!(menu.last().unwrap(), MenuEntry::Item { id: "quit", .. }));

    let mut tray = Config::new("en-US".to_string());
    tray.app_mode = AppMode::Tray;
    let menu = build_menu(Some(&tray), PrivacyModeState::ActiveFull, None);
    match &menu[0] {
        MenuEntry::Check(item) => {
            assert_eq!(item.id, "privacy-mode");
            assert!(item.checked);
        }
        other => panic!("unexpected entry {other:?}"),
    }
}

#[test]
fn menu_ids_map_to_actions() {
    assert_eq!(menu_action("open-dashboard"), MenuAction::OpenDashboard);
    assert_eq!(menu_action("privacy-mode"), MenuAction::TogglePrivacyMode);
    assert_eq!(menu_action("auto-start"), MenuAction::ToggleAutoStart);
    assert_eq!(menu_action("quit"), MenuAction::Quit);
    assert_eq!(menu_action("mode:grid"), MenuAction::SetMode(AppMode::Grid));
    assert_eq!(menu_action("mode:bogus"), MenuAction::Ignore);
    assert_eq!(menu_action("language:fr-FR"), MenuAction::SetLanguage("fr-FR".to_string()));
    assert_eq!(menu_action("something"), MenuAction::Ignore);
}

#[test]
fn tray_clicks_and_privacy_toggles() {
    assert_eq!(left_click_action(Some(AppMode::Grid)), LeftClickAction::ShowGrid);
    assert_eq!(left_click_action(Some(AppMode::Tray)), LeftClickAction::Nothing);
    assert_eq!(left_click_action(None), LeftClickAction::ShowDashboard);
    assert!(privacy_toggle_exits(Some(true), PrivacyModeState::Inactive));
    assert!(privacy_toggle_exits(None, PrivacyModeState::ActiveFull));
    let follow = privacy_toggle_follow_up(false, true, Some(LockResult::Partial));
    assert_eq!(follow.persist, Some(true));
    assert!(follow.partial_warning);
    assert!(!follow.trigger_monitor);
    let failed = privacy_toggle_follow_up(true, false, None);
    assert!(failed.failure_alert && failed.persist.is_none());
    assert_eq!(privacy_toggle_failure_text("busy"), "Failed to toggle privacy mode.\n\nbusy");
}
