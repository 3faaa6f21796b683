use scourgify::database::{
    builtin_whitelist_rules, error_summary, migration_plan, retry_step, unavailable_error, RetryStep,
    SCHEMA_VERSION,
};

#[test]
fn database_error_summary_uses_only_the_root_cause() {
    let error = anyhow::Error::msg("access denied").context("failed at a private path");

    assert_eq!(error_summary(&error), "access denied");
}

#[test]
fn migration_plan_applies_each_missing_version_once() {
    assert_eq!(migration_plan(0).unwrap(), vec![1, 2, 3]);
    assert_eq!(migration_plan(2).unwrap(), vec![3]);
    assert!(migration_plan(SCHEMA_VERSION).unwrap().is_empty());
    let newer = migration_plan(SCHEMA_VERSION + 1).unwrap_err();
    assert_eq!(newer.version, SCHEMA_VERSION + 1);
}

#[test]
fn builtin_rules_protect_desktop_and_documents() {
    assert_eq!(builtin_whitelist_rules(), vec!["Desktop", "Documents"]);
}

#[test]
fn retry_reopens_only_a_known_unconnected_database() {
    assert_eq!(retry_step(true, true), RetryStep::AlreadyConnected);
    assert_eq!(retry_step(false, false), RetryStep::NoPath);
    assert_eq!(retry_step(false, true), RetryStep::Open);
    assert_eq!(unavailable_error(Some("disk full")).message(), "database unavailable: disk full");
    assert_eq!(
        unavailable_error(None).message(),
        "database unavailable: unknown initialization error"
    );
}
