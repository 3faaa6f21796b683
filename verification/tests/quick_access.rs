use scourgify::error::IncidentIds;
use scourgify::error::{
    classify_wincent_error, wincent_post_mutation_warning, ErrorCode, PostMutationStep,
    WincentErrorKind,
};
use scourgify::quick_access::{
    add_item_path, check_add_item_kind, counts, filetime_to_unix_ms, item_name, parse_qa_type,
    parse_visibility_qa_type, parse_write_qa_type, pin_status_value, to_batch_result,
    BatchItemFailure, PathKind, PinStatus, QaKind, QuickAccessError, VisibilityTarget,
    FILETIME_UNIX_EPOCH_OFFSET,
};
use scourgify::quick_access::{items_from_paths, InteractionEntry};
use scourgify::quick_access::{
    to_restore_result, FrequentRestoreReport, RawPathRemoveReport, RecentRestoreReport,
};

#[test]
fn parses_supported_qa_types() {
    assert_eq!(parse_qa_type("all").unwrap(), QaKind::All);
    assert_eq!(parse_qa_type("recent").unwrap(), QaKind::RecentFiles);
    assert_eq!(parse_qa_type("frequent").unwrap(), QaKind::FrequentFolders);
}

#[test]
fn parses_supported_write_qa_types() {
    assert_eq!(parse_write_qa_type("recent").unwrap(), QaKind::RecentFiles);
    assert_eq!(parse_write_qa_type("frequent").unwrap(), QaKind::FrequentFolders);
}

#[test]
fn rejects_all_for_write_qa_type() {
    let error = parse_write_qa_type("all").unwrap_err().message();

    assert!(error.contains("unsupported Quick Access write type"));
}

#[test]
fn converts_empty_batch_result() {
    let result = to_batch_result(&mut IncidentIds::new(7), "test", 0, Vec::new(), Vec::new());

    assert_eq!(result.total, 0);
    assert!(result.succeeded.is_empty());
    assert!(result.failed.is_empty());
    assert!(result.warnings.is_empty());
    assert!(result.skipped_protected.is_empty());
    assert_eq!(result.history_error, None);
}

#[test]
fn maps_frequent_folder_pin_status() {
    assert_eq!(pin_status_value(PinStatus::Pinned), Some(true));
    assert_eq!(pin_status_value(PinStatus::Unpinned), Some(false));
    assert_eq!(pin_status_value(PinStatus::NotFound), None);
}

#[test]
fn rejects_unknown_qa_type() {
    let error = parse_qa_type("unknown").unwrap_err().message();

    assert!(error.contains("unsupported Quick Access type"));
}

#[test]
fn parses_visibility_qa_types() {
    assert_eq!(parse_visibility_qa_type("recent").unwrap(), VisibilityTarget::Recent);
    assert_eq!(parse_visibility_qa_type("frequent").unwrap(), VisibilityTarget::Frequent);
    assert_eq!(
        parse_visibility_qa_type("start_recommended").unwrap(),
        VisibilityTarget::StartRecommended
    );
}

#[test]
fn rejects_all_for_visibility_qa_type() {
    let error = parse_visibility_qa_type("all").unwrap_err().message();

    assert!(error.contains("unsupported Quick Access visibility type"));
}

#[test]
fn rejects_empty_add_item_path() {
    assert_eq!(add_item_path("   ").unwrap_err(), QuickAccessError::EmptyItemPath);
}

#[test]
fn add_item_kinds_must_match_the_category() {
    let path = || r"C:\Temp\a.txt".to_string();
    assert_eq!(
        check_add_item_kind(QaKind::RecentFiles, path(), PathKind::Missing),
        Err(QuickAccessError::ItemNotFound(path()))
    );
    assert_eq!(
        check_add_item_kind(QaKind::FrequentFolders, path(), PathKind::File),
        Err(QuickAccessError::NotAFolder(path()))
    );
    assert_eq!(
        check_add_item_kind(QaKind::RecentFiles, path(), PathKind::Directory),
        Err(QuickAccessError::NotAFile(path()))
    );
    assert_eq!(check_add_item_kind(QaKind::RecentFiles, path(), PathKind::File), Ok(path()));
    assert_eq!(check_add_item_kind(QaKind::FrequentFolders, path(), PathKind::Directory), Ok(path()));
    assert_eq!(add_item_path("  C:\\Work  ").unwrap(), r"C:\Work");
}

#[test]
fn derives_item_name_from_path() {
    assert_eq!(item_name(r"C:\Users\hp\report.txt"), "report.txt");
    assert_eq!(item_name(r"C:\Users\hp\Projects"), "Projects");
}

#[test]
fn falls_back_to_path_when_name_is_unavailable() {
    assert_eq!(item_name(r"C:\"), r"C:\");
}

#[test]
fn converts_windows_filetime_to_unix_milliseconds() {
    assert_eq!(filetime_to_unix_ms(FILETIME_UNIX_EPOCH_OFFSET), Some(0));
    assert_eq!(filetime_to_unix_ms(FILETIME_UNIX_EPOCH_OFFSET + 10_000), Some(1));
    assert_eq!(filetime_to_unix_ms(FILETIME_UNIX_EPOCH_OFFSET - 1), None);
}

#[test]
fn maps_wincent_timeout_to_retryable_error() {
    let (code, _, retryable, expected) = classify_wincent_error(&WincentErrorKind::Timeout);

    assert_eq!(code, ErrorCode::QuickAccessTimeout);
    assert!(retryable);
    assert!(expected);
}

#[test]
fn follow_up_failures_count_as_removed_with_a_warning() {
    let result = to_batch_result(
        &mut IncidentIds::new(7),
        "remove",
        3,
        vec!["a".to_string()],
        vec![
            BatchItemFailure {
                path: "b".to_string(),
                error: WincentErrorKind::PostMutationFailure { step: PostMutationStep::RefreshExplorer },
            },
            BatchItemFailure { path: "c".to_string(), error: WincentErrorKind::Timeout },
        ],
    );

    assert_eq!(result.total, 3);
    assert_eq!(result.succeeded, vec!["a".to_string(), "b".to_string()]);
    assert_eq!(result.warnings.len(), 1);
    assert_eq!(result.warnings[0].path, "b");
    assert_eq!(result.warnings[0].warning.step, "refresh_explorer");
    assert_eq!(result.failed.len(), 1);
    assert_eq!(result.failed[0].path, "c");
    assert_eq!(result.failed[0].error.code, ErrorCode::QuickAccessTimeout);
    assert!(wincent_post_mutation_warning(&mut IncidentIds::new(7), "remove", &WincentErrorKind::Timeout).is_none());
}

#[test]
fn counts_add_up_categories() {
    let c = counts(4, 3);
    assert_eq!((c.recent, c.frequent, c.all), (4, 3, 7));
}

#[test]
fn listed_items_take_the_last_known_interaction_and_folder_pins() {

    let offset = FILETIME_UNIX_EPOCH_OFFSET;
    let entries = vec![
        InteractionEntry { path: r"C:\Work".to_string(), filetime: Some(offset + 10_000) },
        InteractionEntry { path: r"c:\WORK".to_string(), filetime: Some(offset + 50_000) },
        InteractionEntry { path: r"C:\work".to_string(), filetime: None },
        InteractionEntry { path: r"C:\Old".to_string(), filetime: Some(offset - 1) },
    ];
    let paths = vec![r"C:\Work".to_string(), r"C:\Old".to_string(), r"C:\New".to_string()];
    let folders = items_from_paths(QaKind::FrequentFolders, paths.clone(), &entries, &[Some(true), None]);
    assert_eq!(folders.len(), 3);
    assert_eq!(folders[0].name, "Work");
    assert_eq!(folders[0].last_interaction_at, Some(5));
    assert_eq!(folders[0].pinned, Some(true));
    assert_eq!(folders[1].last_interaction_at, None);
    assert_eq!(folders[1].pinned, None);
    assert_eq!(folders[2].pinned, None);
    let files = items_from_paths(QaKind::RecentFiles, paths, &entries, &[Some(true)]);
    assert_eq!(files[0].pinned, None);
}

#[test]
fn restore_reports_are_converted_with_classified_errors() {

    let result = to_restore_result(
        &mut IncidentIds::new(7),
        false,
        Some(RecentRestoreReport {
            success: false,
            deleted_lnk_count: 4,
            recent_files_cleared: false,
            error: Some(WincentErrorKind::Timeout),
        }),
        Some(FrequentRestoreReport {
            success: true,
            deleted_lnk_count: 1,
            backing_file_deleted: true,
            rebuilt: false,
            non_default_raw_path_count: 2,
            raw_path_cleanup: Some(RawPathRemoveReport {
                success: true,
                requested_count: 2,
                backing_file_deleted: true,
                rebuilt: true,
                remaining_count: 0,
                error: None,
            }),
            error: None,
        }),
    );
    assert!(!result.success);
    let recent = result.recent.unwrap();
    assert_eq!(recent.deleted_lnk_count, 4);
    assert_eq!(recent.recent_files_cleared, Some(false));
    assert_eq!(recent.error.unwrap().code, ErrorCode::QuickAccessTimeout);
    let frequent = result.frequent.unwrap();
    assert_eq!(frequent.rebuilt, Some(false));
    assert_eq!(frequent.non_default_raw_path_count, 2);
    assert_eq!(frequent.raw_path_cleanup.unwrap().requested_count, 2);
    assert!(frequent.error.is_none());
    assert!(to_restore_result(&mut IncidentIds::new(7), true, None, None).recent.is_none());
}
