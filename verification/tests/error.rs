use scourgify::error::IncidentIds;
use scourgify::error::{format_log_record, log_record, next_incident_id, report_background_error};

#[test]
fn formats_complete_error_chain() {
    let error = std::io::Error::new(std::io::ErrorKind::PermissionDenied, "access denied");
    let wrapped = anyhow::Error::new(error).context("failed to write config");

    assert_eq!(format!("{wrapped:#}"), "failed to write config: access denied");
}

#[test]
fn log_record_contains_correlation_and_complete_error_chain() {
    let source = std::io::Error::new(std::io::ErrorKind::PermissionDenied, "access denied");
    let error = anyhow::Error::new(source).context("failed to write config");

    assert_eq!(
        format_log_record("update_config", "ConfigPersistenceFailed", "incident-42", error),
        "operation=update_config code=ConfigPersistenceFailed incident_id=incident-42 error=failed to write config: access denied"
    );
}

#[test]
fn incident_ids_are_time_process_and_sequence_in_hexadecimal() {
    let mut ids = IncidentIds::new(0x2a);
    let id = next_incident_id(&mut ids);
    let parts: Vec<&str> = id.split('-').collect();
    assert_eq!(parts.len(), 3);
    assert!(parts.iter().all(|p| !p.is_empty() && p.chars().all(|c| c.is_ascii_hexdigit())));
    assert_eq!(parts[1], "2a");
    assert_eq!(parts[2], "1");
    let next = next_incident_id(&mut ids);
    assert!(next.ends_with("-2a-2"));
}

#[test]
fn background_errors_are_logged_under_their_incident() {
    let (incident_id, record) = report_background_error(&mut IncidentIds::new(7), "restore_privacy_mode", "lock failed");
    assert_eq!(
        record,
        log_record("restore_privacy_mode", "InternalUnexpected", &incident_id, "lock failed")
    );
    assert!(record.ends_with(" error=lock failed"));
}

#[test]
fn incident_ids_are_distinct() {
    let mut ids = IncidentIds::new(7);
    assert_ne!(next_incident_id(&mut ids), next_incident_id(&mut ids));
}
