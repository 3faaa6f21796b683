use scourgify::privacy::{
    enter_transition, exit_transition, LockResult, PrivacyLocks, PrivacyModeState, UnlockCounts,
};

#[test]
fn starts_inactive() {
    let locks: PrivacyLocks<u8> = PrivacyLocks::new();

    assert_eq!(locks.mode(), PrivacyModeState::Inactive);
}

#[test]
fn partial_locks_report_which_categories_are_protected() {
    let locks: PrivacyLocks<u8> = PrivacyLocks::ActivePartial { recent: Some(1), frequent: None };
    assert_eq!(
        locks.mode(),
        PrivacyModeState::ActivePartial { recent: true, frequent: false }
    );
    let full: PrivacyLocks<u8> = PrivacyLocks::ActiveFull(7);
    assert_eq!(full.mode(), PrivacyModeState::ActiveFull);
}

#[test]
fn taking_the_locks_leaves_privacy_mode() {
    let mut locks: PrivacyLocks<u8> = PrivacyLocks::ActivePartial { recent: Some(1), frequent: Some(2) };
    let taken = locks.take();
    assert_eq!(taken.len(), 2);
    assert_eq!(locks.mode(), PrivacyModeState::Inactive);
}

#[test]
fn transitions_follow_lock_results() {
    let entered = enter_transition(PrivacyModeState::ActiveFull, LockResult::Full);
    assert_eq!(entered.state, PrivacyModeState::ActiveFull);
    assert_eq!(entered.lock_result, Some(LockResult::Full));
    let left = exit_transition(
        PrivacyModeState::Inactive,
        &[
            UnlockCounts { new_links: 2, deleted_links: 1, failed_link_deletions: 1 },
            UnlockCounts { new_links: 3, deleted_links: 3, failed_link_deletions: 0 },
        ],
    );
    assert_eq!(left.reports, 2);
    assert_eq!(left.new_links, 5);
    assert_eq!(left.deleted_links, 4);
    assert_eq!(left.failed_link_deletions, 1);
    assert_eq!(left.lock_result, None);
}
