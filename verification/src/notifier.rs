//! Which system notifications are shown after operations, and what they say.
use vstd::prelude::*;

use crate::auto_clean::{spec_has_issues, AutoCleanResult};
use crate::config::Config;
use crate::text::{digits, push_decimal, push_str, string_of};

verus! {

/// The notification after an automatic cleanup.
#[derive(Debug, Clone, Copy, PartialEq, Eq, Structural)]
pub enum AutoCleanNotification {
    Complete,
    PartialFailure,
}

pub open spec fn spec_auto_clean_notification(
    config: Config,
    result: AutoCleanResult,
    window_inactive: bool,
) -> Option<AutoCleanNotification> {
    if !config.notifications_enabled {
        None
    } else if spec_has_issues(result) {
        if config.notify_partial_failure {
            Some(AutoCleanNotification::PartialFailure)
        } else {
            None
        }
    } else if !config.notify_operation_complete {
        None
    } else if (if window_inactive {
        config.notify_inactive_operation_complete
    } else {
        config.notify_active_operation_complete
    }) {
        Some(AutoCleanNotification::Complete)
    } else {
        None
    }
}

/// The notification after an automatic cleanup: none with notifications off; a
/// cleanup with issues gives a partial-failure notification when those are wanted;
/// otherwise a completion notification when completions are wanted while the main
/// window is, or is not, in use.
pub fn auto_clean_notification(config: &Config, result: &AutoCleanResult, window_inactive: bool) -> (r: Option<
    AutoCleanNotification,
>)
    ensures
        r == spec_auto_clean_notification(*config, *result, window_inactive),
{
    if !config.notifications_enabled {
        return None;
    }
    if result.has_issues() {
        return if config.notify_partial_failure {
            Some(AutoCleanNotification::PartialFailure)
        } else {
            None
        };
    }
    if !config.notify_operation_complete {
        return None;
    }
    let allowed_for_window = if window_inactive {
        config.notify_inactive_operation_complete
    } else {
        config.notify_active_operation_complete
    };
    if allowed_for_window {
        Some(AutoCleanNotification::Complete)
    } else {
        None
    }
}

/// The text of an automatic cleanup notification.
pub open spec fn spec_notification_body(kind: AutoCleanNotification, r: AutoCleanResult) -> Seq<char> {
    match kind {
        AutoCleanNotification::Complete => "Auto-clean completed: "@ + digits(r.succeeded as nat, 10) + " of "@
            + digits(r.total as nat, 10) + " matching items removed."@,
        AutoCleanNotification::PartialFailure => "Auto-clean completed with issues: "@ + digits(
            r.succeeded as nat,
            10,
        ) + " removed, "@ + digits(r.failed as nat, 10) + " item failures, "@ + digits(r.warnings as nat, 10)
            + " warnings, "@ + digits(r.section_errors as nat, 10) + " section failures, "@ + digits(
            r.history_errors as nat,
            10,
        ) + " history failures."@,
    }
}

pub fn notification_body(kind: AutoCleanNotification, result: &AutoCleanResult) -> (r: String)
    ensures
        r@ == spec_notification_body(kind, *result),
{
    let mut out = String::new();
    match kind {
        AutoCleanNotification::Complete => {
            push_str(&mut out, "Auto-clean completed: ");
            push_decimal(&mut out, result.succeeded as u64);
            push_str(&mut out, " of ");
            push_decimal(&mut out, result.total as u64);
            push_str(&mut out, " matching items removed.");
        },
        AutoCleanNotification::PartialFailure => {
            push_str(&mut out, "Auto-clean completed with issues: ");
            push_decimal(&mut out, result.succeeded as u64);
            push_str(&mut out, " removed, ");
            push_decimal(&mut out, result.failed as u64);
            push_str(&mut out, " item failures, ");
            push_decimal(&mut out, result.warnings as u64);
            push_str(&mut out, " warnings, ");
            push_decimal(&mut out, result.section_errors as u64);
            push_str(&mut out, " section failures, ");
            push_decimal(&mut out, result.history_errors as u64);
            push_str(&mut out, " history failures.");
        },
    }
    out
}

/// A partial failure is notified only with notifications and partial-failure
/// notifications both on.
pub fn partial_failure_notified(config: &Config) -> (r: bool)
    ensures
        r == (config.notifications_enabled && config.notify_partial_failure),
{
    config.notifications_enabled && config.notify_partial_failure
}

/// The main window counts as inactive when it does not exist, or is hidden or
/// unfocused; a visibility or focus that cannot be read counts as hidden or unfocused.
pub fn window_inactive(window_exists: bool, visible: Option<bool>, focused: Option<bool>) -> (r: bool)
    ensures
        r == (!window_exists || visible != Some(true) || focused != Some(true)),
{
    if !window_exists {
        return true;
    }
    let visible = match visible {
        Some(v) => v,
        None => false,
    };
    let focused = match focused {
        Some(f) => f,
        None => false,
    };
    !visible || !focused
}

/// No notification is shown with notifications off, and a cleanup with issues is
/// never announced as complete.
pub proof fn law_notifications_respect_preferences(config: Config, result: AutoCleanResult, window_inactive: bool)
    ensures
        !config.notifications_enabled ==> spec_auto_clean_notification(config, result, window_inactive) is None,
        spec_has_issues(result) ==> spec_auto_clean_notification(config, result, window_inactive) != Some(
            AutoCleanNotification::Complete,
        ),
{
}


/// When each notification is shown after an automatic cleanup: a completion notice
/// exactly when notifications are on, the cleanup had no issues, completion notices
/// are on, and they are wanted for the window's state (in use or not); a partial
/// failure notice exactly when notifications are on, the cleanup had issues and such
/// notices are wanted. In particular, with completion notices off no completion is
/// ever announced.
pub proof fn law_notifications_follow_each_setting(config: Config, result: AutoCleanResult, window_inactive: bool)
    ensures
        spec_auto_clean_notification(config, result, window_inactive) == Some(AutoCleanNotification::Complete)
            <==> {
            &&& config.notifications_enabled
            &&& !spec_has_issues(result)
            &&& config.notify_operation_complete
            &&& if window_inactive {
                config.notify_inactive_operation_complete
            } else {
                config.notify_active_operation_complete
            }
        },
        spec_auto_clean_notification(config, result, window_inactive) == Some(
            AutoCleanNotification::PartialFailure,
        ) <==> config.notifications_enabled && spec_has_issues(result) && config.notify_partial_failure,
        !config.notify_operation_complete ==> spec_auto_clean_notification(config, result, window_inactive)
            != Some(AutoCleanNotification::Complete),
{
}
} // verus!
