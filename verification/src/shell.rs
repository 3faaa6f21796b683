//! Decisions of the desktop shell: how the main window is shown for each mode, what
//! closing it does, how a second launch is answered, the system theme, the notices
//! after restoring privacy mode at startup, and what a settings change sets in motion.
use vstd::prelude::*;

use crate::config::{spec_normalize_language, normalize_language, AppMode, CloseBehavior, Config};
use crate::config::{spec_policy_valid, ScheduleError};
use crate::history::retention_requires_trim;
use crate::privacy::LockResult;
use crate::text::{push_str, str_eq, string_of};

verus! {

/// The route, size and minimum size, in logical pixels, of the main window.
#[derive(Debug, Clone, Copy, PartialEq, Eq)]
pub struct WindowLayout {
    pub route: &'static str,
    pub width: u32,
    pub height: u32,
    pub min_width: u32,
    pub min_height: u32,
    pub resizable: bool,
}

/// What an application mode does with the main window.
#[derive(Debug, Clone, Copy, PartialEq, Eq)]
pub enum WindowStrategy {
    Show(WindowLayout),
    Hide,
}

/// The dashboard: 1040 by 720, at least 1040 by 670, resizable, at route `#/`.
pub open spec fn is_dashboard_layout(l: WindowLayout) -> bool {
    &&& l.route@ == "#/"@
    &&& l.width == 1040 && l.height == 720
    &&& l.min_width == 1040 && l.min_height == 670
    &&& l.resizable
}

/// The grid: 600 by 400, at least 400 by 320, resizable, at route `#/grid`.
pub open spec fn is_grid_layout(l: WindowLayout) -> bool {
    &&& l.route@ == "#/grid"@
    &&& l.width == 600 && l.height == 400
    &&& l.min_width == 400 && l.min_height == 320
    &&& l.resizable
}

/// The layout of the dashboard window.
pub fn dashboard_layout() -> (r: WindowLayout)
    ensures
        is_dashboard_layout(r),
{
    WindowLayout { route: "#/", width: 1040, height: 720, min_width: 1040, min_height: 670, resizable: true }
}

/// The layout of the grid window.
pub fn grid_layout() -> (r: WindowLayout)
    ensures
        is_grid_layout(r),
{
    WindowLayout { route: "#/grid", width: 600, height: 400, min_width: 400, min_height: 320, resizable: true }
}

/// The dashboard and grid modes show the main window in their layout; the tray mode
/// hides it.
pub fn window_strategy(mode: AppMode) -> (r: WindowStrategy)
    ensures
        mode == AppMode::Dashboard ==> (r matches WindowStrategy::Show(l) && is_dashboard_layout(l)),
        mode == AppMode::Grid ==> (r matches WindowStrategy::Show(l) && is_grid_layout(l)),
        mode == AppMode::Tray ==> r == WindowStrategy::Hide,
{
    match mode {
        AppMode::Dashboard => WindowStrategy::Show(dashboard_layout()),
        AppMode::Grid => WindowStrategy::Show(grid_layout()),
        AppMode::Tray => WindowStrategy::Hide,
    }
}

/// The script that moves the window's page to `route`.
pub open spec fn navigation_text(route: Seq<char>) -> Seq<char> {
    "window.location.hash = '"@ + route + "'"@
}

/// The script that moves the window's page to `route`.
pub fn navigation_script(route: &str) -> (r: String)
    ensures
        r@ == navigation_text(route@),
{
    let mut out = String::new();
    push_str(&mut out, "window.location.hash = '");
    push_str(&mut out, route);
    push_str(&mut out, "'");
    out
}

/// Whether a request to close the main window hides it instead: so it is when the
/// settings say so, and when they cannot be read.
pub fn close_hides_window(behavior: Option<CloseBehavior>) -> (r: bool)
    ensures
        r == (behavior is None || behavior == Some(CloseBehavior::Hide)),
{
    match behavior {
        Some(b) => b == CloseBehavior::Hide,
        None => true,
    }
}

/// How a second launch of the application is answered.
#[derive(Debug, Clone, Copy, PartialEq, Eq)]
pub enum SecondInstanceAction {
    /// Bring the dashboard to the front.
    ShowDashboard,
    /// Tell the user that the application already runs.
    Inform(&'static str),
}

/// In dashboard mode a second launch brings the dashboard forward; in the other
/// modes, and when the settings cannot be read, it is answered by a message.
pub fn second_instance_action(mode: Option<AppMode>) -> (r: SecondInstanceAction)
    ensures
        mode == Some(AppMode::Dashboard) ==> r == SecondInstanceAction::ShowDashboard,
        mode != Some(AppMode::Dashboard) ==> (r matches SecondInstanceAction::Inform(m) && m@
            == "Scourgify is already running."@),
{
    match mode {
        Some(AppMode::Dashboard) => SecondInstanceAction::ShowDashboard,
        _ => SecondInstanceAction::Inform("Scourgify is already running."),
    }
}

/// Whether the system theme is light, from the registry's `SystemUsesLightTheme`
/// value: any value but zero is light; a missing value is dark.
pub fn is_light_theme_value(value: Option<u32>) -> (r: bool)
    ensures
        r == (value matches Some(v) && v != 0),
{
    match value {
        Some(v) => v != 0,
        None => false,
    }
}

/// The message box text and the notification text after restoring privacy mode.
#[derive(Debug, Clone, PartialEq, Eq)]
pub struct RestoreNotice {
    pub alert: String,
    pub notification: String,
}

/// What the user is told after privacy mode was restored at startup: nothing after a
/// full lock; the same sentence twice after a partial one; after a failure, the error
/// text `error` in a message box and in a notification.
pub fn restore_privacy_notice(outcome: Result<LockResult, String>) -> (r: Option<RestoreNotice>)
    ensures
        outcome == Ok::<LockResult, String>(LockResult::Full) ==> r is None,
        outcome == Ok::<LockResult, String>(LockResult::Partial) ==> (r matches Some(n) && n.alert@
            == "Privacy mode was restored with partial protection."@ && n.notification@
            == "Privacy mode was restored with partial protection."@),
        outcome matches Err(e) ==> (r matches Some(n) && n.alert@ == "Failed to restore privacy mode.\n\n"@
            + e@ && n.notification@ == "Failed to restore privacy mode: "@ + e@),
{
    match outcome {
        Ok(LockResult::Full) => None,
        Ok(LockResult::Partial) => Some(
            RestoreNotice {
                alert: string_of("Privacy mode was restored with partial protection."),
                notification: string_of("Privacy mode was restored with partial protection."),
            },
        ),
        Err(e) => {
            let mut alert = String::new();
            push_str(&mut alert, "Failed to restore privacy mode.\n\n");
            push_str(&mut alert, e.as_str());
            let mut notification = String::new();
            push_str(&mut notification, "Failed to restore privacy mode: ");
            push_str(&mut notification, e.as_str());
            Some(RestoreNotice { alert, notification })
        },
    }
}

/// The launcher's auto-start state, where it differs from the stored setting: the
/// value to store. Nothing changes when the state could not be read.
pub fn auto_start_to_store(stored: bool, launcher: Option<bool>) -> (r: Option<bool>)
    ensures
        r == (match launcher {
            Some(enabled) => if enabled != stored {
                Some(enabled)
            } else {
                None
            },
            None => None,
        }),
{
    match launcher {
        Some(enabled) => if enabled != stored {
            Some(enabled)
        } else {
            None
        },
        None => None,
    }
}

/// What applying new settings does: the settings to store, the number of history
/// entries to trim to, the auto-start state to set, whether the scheduler must
/// recompute its plan, and whether the language changed.
#[derive(Debug)]
pub struct SettingsUpdate {
    pub config: Config,
    pub trim_history_to: Option<usize>,
    pub set_auto_start: Option<bool>,
    pub reschedule: bool,
    pub language_changed: bool,
}

/// `next` as stored: its language normalized and the time of the last automatic
/// cleanup kept from `current`, every other setting as given.
pub open spec fn stored_settings(current: Config, next: Config, stored: Config) -> bool {
    &&& stored.language@ == spec_normalize_language(next.language@)
    &&& stored.auto_clean_last_run == current.auto_clean_last_run
    &&& stored == Config { language: stored.language, auto_clean_last_run: current.auto_clean_last_run, ..next }
}

/// Plans the change from settings `current` to `next`. Settings with an invalid
/// automatic cleanup policy are refused. The history is trimmed when a limit is set
/// where there was none, or lowered; auto-start is set when it changes; the scheduler
/// recomputes its plan when the policy changes.
pub fn plan_settings_update(current: &Config, next: Config) -> (r: Result<SettingsUpdate, ScheduleError>)
    ensures
        spec_policy_valid(next.auto_clean) matches Err(e) ==> r == Err::<SettingsUpdate, ScheduleError>(e),
        spec_policy_valid(next.auto_clean) is Ok ==> (r matches Ok(u) && {
            &&& stored_settings(*current, next, u.config)
            &&& u.trim_history_to == if next.history_retention > 0 && (current.history_retention == 0
                || next.history_retention < current.history_retention) {
                Some(next.history_retention)
            } else {
                None
            }
            &&& u.set_auto_start == if next.auto_start != current.auto_start {
                Some(next.auto_start)
            } else {
                None
            }
            &&& u.reschedule == (next.auto_clean != current.auto_clean)
            &&& u.language_changed == (current.language@ != spec_normalize_language(next.language@))
        }),
{
    let mut next = next;
    let language = normalize_language(next.language.as_str());
    next.language = language;
    match next.validate() {
        Err(e) => return Err(e),
        Ok(()) => {},
    }
    let trim_history_to = if retention_requires_trim(current.history_retention, next.history_retention) {
        Some(next.history_retention)
    } else {
        None
    };
    let set_auto_start = if current.auto_start != next.auto_start {
        Some(next.auto_start)
    } else {
        None
    };
    let reschedule = current.auto_clean != next.auto_clean;
    let language_changed = !str_eq(current.language.as_str(), next.language.as_str());
    next.auto_clean_last_run = current.auto_clean_last_run;
    Ok(SettingsUpdate { config: next, trim_history_to, set_auto_start, reschedule, language_changed })
}

} // verus!
