use scourgify::history_runs::{
    csv_runs_export, lifetime_totals_from, run_csv_header, validate_run_query, CleanupRun,
    CleanupRunFilter, CleanupRunQuery, CleanupRunStatus, RunCompletion,
};

#[test]
fn status_distinguishes_success_partial_failed_and_noop() {
    assert_eq!(
        RunCompletion { requested: 1, succeeded: 1, ..RunCompletion::default() }.status(),
        CleanupRunStatus::Success
    );
    assert_eq!(
        RunCompletion { requested: 2, succeeded: 1, failed: 1, ..RunCompletion::default() }.status(),
        CleanupRunStatus::Partial
    );
    assert_eq!(
        RunCompletion { requested: 1, failed: 1, ..RunCompletion::default() }.status(),
        CleanupRunStatus::Failed
    );
    assert_eq!(
        RunCompletion { requested: 1, protected: 1, ..RunCompletion::default() }.status(),
        CleanupRunStatus::Noop
    );
}

#[test]
fn warnings_alone_make_a_run_partial() {
    assert_eq!(
        RunCompletion { requested: 1, succeeded: 1, warnings: 1, ..RunCompletion::default() }.status(),
        CleanupRunStatus::Partial
    );
    assert_eq!(
        RunCompletion { section_errors: 1, ..RunCompletion::default() }.status(),
        CleanupRunStatus::Failed
    );
}

#[test]
fn run_queries_check_page_and_page_size() {
    let query = |page: u32, page_size: u32| CleanupRunQuery {
        page,
        page_size,
        filter: CleanupRunFilter::default(),
    };
    assert!(validate_run_query(&query(0, 10)).is_err());
    assert!(validate_run_query(&query(1, 0)).is_err());
    assert!(validate_run_query(&query(1, 101)).is_err());
    let valid = validate_run_query(&query(3, 20)).unwrap();
    assert_eq!(valid.offset, 40);
    assert_eq!(valid.limit, 20);
}

#[test]
fn lifetime_totals_refuse_negative_counts() {
    let totals = lifetime_totals_from([5, 3, 1, 1, 0, 10, 7, 2, 1], "2026-07-01".to_string()).unwrap();
    assert_eq!(totals.tracking_started_at, "2026-07-01");
    assert!(lifetime_totals_from([5, 3, 1, 1, 0, 10, 7, -2, 1], "x".to_string()).is_err());
}

#[test]
fn run_export_writes_header_then_each_run() {
    let run = CleanupRun {
        id: 3,
        action: "smart_clean".to_string(),
        trigger: "manual".to_string(),
        qa_type: "recent".to_string(),
        status: CleanupRunStatus::Partial,
        requested_count: 4,
        succeeded_count: 3,
        failed_count: 1,
        protected_count: 0,
        warning_count: 0,
        history_error_count: 0,
        section_error_count: 0,
        incident_id: Some("abc-1".to_string()),
        started_at: "2026-07-13 08:00:00".to_string(),
        completed_at: Some("2026-07-13 08:00:01".to_string()),
    };
    let bytes = csv_runs_export(&[run]).unwrap();
    let text = String::from_utf8(bytes).unwrap();
    let mut lines = text.lines();
    assert_eq!(lines.next().unwrap(), run_csv_header().join(","));
    let row = lines.next().unwrap();
    assert!(row.starts_with("3,smart_clean,manual,recent,partial,4,3,1,"));
    assert!(lines.next().is_none());
}
