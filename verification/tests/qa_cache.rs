use scourgify::qa_cache::{must_list, CacheSnapshot, QuickAccessChanged, POLL_INTERVAL_SECS};
use scourgify::quick_access::{QaItem, QaKind};

fn item(path: &str) -> QaItem {
    QaItem { path: path.to_string(), name: path.to_string(), last_interaction_at: None, pinned: None }
}

#[test]
fn monitor_uses_three_second_polling() {
    assert_eq!(std::time::Duration::from_secs(POLL_INTERVAL_SECS), std::time::Duration::from_secs(3));
}

#[test]
fn cache_emits_only_after_an_initialized_category_changes() {
    let mut cache = CacheSnapshot::default();

    assert_eq!(cache.store(QaKind::RecentFiles, vec![item("first")]).unwrap(), None);
    assert_eq!(cache.cached(QaKind::RecentFiles), Some(vec![item("first")]));
    assert_eq!(cache.store(QaKind::RecentFiles, vec![item("first")]).unwrap(), None);
    assert_eq!(
        cache.store(QaKind::RecentFiles, vec![item("second")]).unwrap(),
        Some(QuickAccessChanged { qa_type: "recent", revision: 2 })
    );
}

#[test]
fn a_cold_or_forced_category_is_listed_again() {
    let mut cache = CacheSnapshot::default();
    assert!(must_list(&cache, QaKind::FrequentFolders, false));
    cache.store(QaKind::FrequentFolders, vec![item("f")]).unwrap();
    assert!(!must_list(&cache, QaKind::FrequentFolders, false));
    assert!(must_list(&cache, QaKind::FrequentFolders, true));
    assert_eq!(cache.cached(QaKind::All), None);
}

#[test]
fn watch_failures_are_reported_once_per_run_of_failures() {
    assert_eq!(scourgify::qa_cache::watch_error_report(false, false), (true, true));
    assert_eq!(scourgify::qa_cache::watch_error_report(true, false), (false, true));
    assert_eq!(scourgify::qa_cache::watch_error_report(true, true), (false, false));
    assert_eq!(scourgify::qa_cache::watch_error_report(false, true), (false, false));
}
