use scourgify::history::{
    csv_export, history_csv_header, history_search_pattern, record_page, retention_requires_trim,
    stats_from, validate_export_path, validate_history_query, CleanSource, ExportCleanRecord,
    HistoryError, HistoryExportFormat, HistoryFilter, HistoryQuery, HistoryTotals, StatsTrendPoint,
};

fn export_record(path: &str, keyword: Option<&str>, source: CleanSource) -> ExportCleanRecord {
    ExportCleanRecord {
        run_id: Some(4),
        item_path: path.to_string(),
        item_type: "recent_file".to_string(),
        rule_id: keyword.map(|_| 9),
        rule_keyword: keyword.map(str::to_string),
        source,
        cleaned_at: "2026-07-13 08:00:00".to_string(),
    }
}

#[test]
fn csv_export_quotes_special_characters() {
    let special_path = "C:\\Temp\\\"report\",\n报告.txt";
    let special_keyword = "alpha,\"beta\"\nline";
    let bytes = csv_export(&[export_record(special_path, Some(special_keyword), CleanSource::Auto)]).unwrap();

    let mut reader = csv::Reader::from_reader(bytes.as_slice());
    assert_eq!(
        reader.headers().unwrap().iter().collect::<Vec<_>>(),
        history_csv_header().iter().map(String::as_str).collect::<Vec<_>>()
    );
    assert_eq!(
        history_csv_header(),
        ["run_id", "item_path", "item_type", "rule_id", "rule_keyword", "source", "cleaned_at"]
    );
    let rows = reader.records().collect::<csv::Result<Vec<_>>>().unwrap();
    assert_eq!(rows.len(), 1);
    assert_eq!(&rows[0][0], "4");
    assert_eq!(&rows[0][1], special_path);
    assert_eq!(&rows[0][3], "9");
    assert_eq!(&rows[0][4], special_keyword);
    assert_eq!(&rows[0][5], "auto");
}

#[test]
fn empty_csv_export_has_only_the_header() {
    let bytes = csv_export(&[]).unwrap();
    assert_eq!(
        String::from_utf8(bytes).unwrap(),
        "run_id,item_path,item_type,rule_id,rule_keyword,source,cleaned_at\n"
    );
}

#[test]
fn search_patterns_escape_like_wildcards() {
    assert_eq!(history_search_pattern("  "), None);
    assert_eq!(history_search_pattern(" 50%_off\\ ").unwrap(), "%50\\%\\_off\\\\%");
}

#[test]
fn history_queries_are_checked() {
    let query = |page: u32, page_size: u32, sort_by: &str, sort_order: &str| HistoryQuery {
        page,
        page_size,
        sort_by: sort_by.to_string(),
        sort_order: sort_order.to_string(),
        filter: HistoryFilter::default(),
    };
    assert_eq!(validate_history_query(query(0, 10, "cleaned_at", "desc")), Err(HistoryError::Page));
    assert_eq!(validate_history_query(query(1, 101, "cleaned_at", "desc")), Err(HistoryError::PageSize));
    assert!(matches!(
        validate_history_query(query(1, 10, "id; DROP", "desc")),
        Err(HistoryError::SortField(_))
    ));
    assert_eq!(validate_history_query(query(1, 10, "item_path", "up")), Err(HistoryError::SortOrder));
    let valid = validate_history_query(query(2, 25, "item_path", "asc")).unwrap();
    assert_eq!((valid.sort_column, valid.sort_order, valid.offset, valid.limit), ("item_path", "ASC", 25, 25));
    let bad_filter = HistoryQuery {
        filter: HistoryFilter { date_range: Some("forever".to_string()), ..HistoryFilter::default() },
        ..query(1, 10, "cleaned_at", "desc")
    };
    assert!(validate_history_query(bad_filter).is_err());
}

#[test]
fn export_targets_must_be_absolute_with_the_format_extension() {
    assert_eq!(validate_export_path("  ", HistoryExportFormat::Csv), Err(HistoryError::ExportPathEmpty));
    assert_eq!(
        validate_export_path("relative.csv", HistoryExportFormat::Csv),
        Err(HistoryError::ExportPathNotAbsolute)
    );
    assert_eq!(
        validate_export_path(r"C:\out\history.json", HistoryExportFormat::Csv),
        Err(HistoryError::ExportExtension(HistoryExportFormat::Csv))
    );
    assert_eq!(validate_export_path(r"C:\out\history.CSV", HistoryExportFormat::Csv), Ok(()));
}

#[test]
fn retention_trims_only_when_tightened() {
    assert!(retention_requires_trim(0, 100));
    assert!(retention_requires_trim(500, 100));
    assert!(!retention_requires_trim(100, 500));
    assert!(!retention_requires_trim(100, 0));
}

#[test]
fn pages_and_stats_refuse_negative_counts() {
    assert!(record_page(Vec::new(), -1, 3, 1, 10).is_err());
    let page = record_page(Vec::new(), 2, 3, 1, 10).unwrap();
    assert_eq!((page.total, page.overall_total), (2, 3));
    let empty = HistoryTotals { total: 0, recent_files: 0, frequent_folders: 0 };
    let stats = stats_from(
        empty,
        vec![StatsTrendPoint { period: "2026-07-13".to_string(), count: 1 }],
        Vec::new(),
        Vec::new(),
    );
    assert!(stats.daily_trend.is_empty());
    assert_eq!(CleanSource::from_str("auto"), Some(CleanSource::Auto));
    assert_eq!(CleanSource::from_str("robot"), None);
}
