use scourgify::error::IncidentIds;
use scourgify::commands::{
    clear_rules_target, ensure_quick_access_write_allowed, missing_path_error, validate_open_path,
    ActionReceipt,
};
use scourgify::commands::{log_file_action, LogFileAction};
use scourgify::error::ErrorCode;
use scourgify::privacy::PrivacyModeState;

#[test]
fn mod_allows_writes_when_privacy_is_inactive() {
    assert!(ensure_quick_access_write_allowed(&mut IncidentIds::new(7), PrivacyModeState::Inactive).is_ok());
}

#[test]
fn mod_rejects_writes_when_privacy_is_active() {
    let error = ensure_quick_access_write_allowed(&mut IncidentIds::new(7), PrivacyModeState::ActiveFull).unwrap_err();

    assert_eq!(error.code, ErrorCode::PrivacyWriteBlocked);
    assert!(error.retryable);
}

#[test]
fn quick_access_rejects_empty_open_path() {
    assert_eq!(validate_open_path("   ").unwrap_err(), "Path is empty.");
}

#[test]
fn commands_allows_writes_when_privacy_is_inactive() {
    assert!(ensure_quick_access_write_allowed(&mut IncidentIds::new(7), PrivacyModeState::Inactive).is_ok());
}

#[test]
fn commands_rejects_writes_when_privacy_is_active() {
    let error = ensure_quick_access_write_allowed(&mut IncidentIds::new(7), PrivacyModeState::ActiveFull).unwrap_err();

    assert_eq!(error.message, "The operation is unavailable while privacy mode is active.");
    assert!(ensure_quick_access_write_allowed(&mut IncidentIds::new(7), PrivacyModeState::ActivePartial {
        recent: false,
        frequent: true,
    })
    .is_err());
}

#[test]
fn commands_rejects_empty_open_path() {
    assert_eq!(validate_open_path("   ").unwrap_err(), "Path is empty.");
}

#[test]
fn open_path_keeps_a_non_blank_path_and_names_a_missing_one() {
    assert_eq!(validate_open_path(r"C:\Temp").unwrap(), r"C:\Temp");
    assert_eq!(missing_path_error(r"C:\Nope"), r"Path does not exist: C:\Nope");
}

#[test]
fn action_receipt_keeps_its_fields() {
    let receipt = ActionReceipt::new("remove_rule", "42", 1);
    assert_eq!(receipt.action, "remove_rule");
    assert_eq!(receipt.target, "42");
    assert_eq!(receipt.affected, 1);
    assert_ne!(clear_rules_target(true), clear_rules_target(false));
}

#[test]
fn log_clearing_touches_only_scourgify_logs() {
    assert_eq!(log_file_action("scourgify.log"), LogFileAction::Truncate);
    assert_eq!(log_file_action("scourgify_2026-07-21.log"), LogFileAction::Remove);
    assert_eq!(log_file_action("scourgify_2026-07-20.log.bak"), LogFileAction::Remove);
    assert_eq!(log_file_action("other.log"), LogFileAction::Keep);
    assert_eq!(log_file_action("scourgify_notes.txt"), LogFileAction::Keep);
}

#[test]
fn unicode_white_space_counts_as_blank() {
    assert_eq!(validate_open_path("\u{3000}\u{a0}\t\u{2009}"), Err("Path is empty.".to_string()));
    assert_eq!(validate_open_path("\u{200b}"), Ok("\u{200b}".to_string()));
}
