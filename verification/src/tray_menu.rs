//! The tray menu: its entries for the current settings, and what a click on each does.
use vstd::prelude::*;

use crate::config::{AppMode, Config};
use crate::i18n::{is_tray_text, tray_text, TrayText};
use crate::privacy::{is_privacy_enabled, LockResult, PrivacyModeState};
use crate::text::{chars_eq_str, chars_of, push_str, str_eq, string_from, string_of};

verus! {

pub const OPEN_DASHBOARD_ID: &'static str = "open-dashboard";

pub const PRIVACY_MODE_ID: &'static str = "privacy-mode";

pub const AUTO_START_ID: &'static str = "auto-start";

pub const QUIT_ID: &'static str = "quit";

pub const MODE_PREFIX: &'static str = "mode:";

pub const LANGUAGE_PREFIX: &'static str = "language:";

/// A menu entry with a check mark.
#[derive(Debug, Clone, PartialEq, Eq)]
pub struct CheckItem {
    pub id: String,
    pub label: &'static str,
    pub checked: bool,
}

/// An entry of the tray menu.
#[derive(Debug, Clone, PartialEq, Eq)]
pub enum MenuEntry {
    Item { id: &'static str, label: &'static str },
    Check(CheckItem),
    Submenu { title: &'static str, items: Vec<CheckItem> },
    Separator,
}

/// The label of the privacy entry: it says when the protection is only partial.
pub fn privacy_label(text: &TrayText, state: PrivacyModeState) -> (r: &'static str)
    ensures
        r == (if state is ActivePartial {
            text.privacy_mode_partial
        } else {
            text.privacy_mode
        }),
{
    match state {
        PrivacyModeState::ActivePartial { .. } => text.privacy_mode_partial,
        _ => text.privacy_mode,
    }
}

/// Whether `c` is a check entry with `id`, `label` and `checked`.
pub open spec fn is_check(c: CheckItem, id: Seq<char>, label: Seq<char>, checked: bool) -> bool {
    c.id@ == id && c.label@ == label && c.checked == checked
}

fn check_item(prefix: &str, code: &str, label: &'static str, checked: bool) -> (r: CheckItem)
    ensures
        r.id@ == prefix@ + code@,
        r.label == label,
        r.checked == checked,
{
    let mut id = string_of(prefix);
    push_str(&mut id, code);
    CheckItem { id, label, checked }
}

/// The entries of the mode submenu: each mode, the current one checked.
pub open spec fn is_mode_items(items: Seq<CheckItem>, text: TrayText, current: AppMode) -> bool {
    &&& items.len() == 3
    &&& is_check(items[0], "mode:dashboard"@, text.mode_dashboard@, current == AppMode::Dashboard)
    &&& is_check(items[1], "mode:grid"@, "Grid"@, current == AppMode::Grid)
    &&& is_check(items[2], "mode:tray"@, text.mode_minimal@, current == AppMode::Tray)
}

fn mode_items(text: &TrayText, current: AppMode) -> (r: Vec<CheckItem>)
    ensures
        is_mode_items(r@, *text, current),
{
    proof {
        reveal_strlit("mode:");
        reveal_strlit("dashboard");
        reveal_strlit("grid");
        reveal_strlit("tray");
        reveal_strlit("mode:dashboard");
        reveal_strlit("mode:grid");
        reveal_strlit("mode:tray");
        assert("mode:"@ + "dashboard"@ =~= "mode:dashboard"@);
        assert("mode:"@ + "grid"@ =~= "mode:grid"@);
        assert("mode:"@ + "tray"@ =~= "mode:tray"@);
    }
    let mut items: Vec<CheckItem> = Vec::new();
    items.push(check_item(MODE_PREFIX, "dashboard", text.mode_dashboard, current == AppMode::Dashboard));
    items.push(check_item(MODE_PREFIX, "grid", "Grid", current == AppMode::Grid));
    items.push(check_item(MODE_PREFIX, "tray", text.mode_minimal, current == AppMode::Tray));
    items
}

/// The entries of the language submenu: each supported language under its own
/// name, the current one checked.
pub open spec fn is_language_items(items: Seq<CheckItem>, current: Seq<char>) -> bool {
    &&& items.len() == 5
    &&& is_check(items[0], "language:en-US"@, "English"@, current == "en-US"@)
    &&& is_check(items[1], "language:zh-CN"@, "简体中文"@, current == "zh-CN"@)
    &&& is_check(items[2], "language:zh-TW"@, "繁體中文"@, current == "zh-TW"@)
    &&& is_check(items[3], "language:fr-FR"@, "Français"@, current == "fr-FR"@)
    &&& is_check(items[4], "language:ru-RU"@, "Русский"@, current == "ru-RU"@)
}

fn language_item(current: &str, code: &'static str, label: &'static str) -> (r: CheckItem)
    ensures
        r.id@ == "language:"@ + code@,
        r.label == label,
        r.checked == (current@ == code@),
{
    proof {
        reveal_strlit("language:");
    }
    let checked = str_eq(current, code);
    check_item(LANGUAGE_PREFIX, code, label, checked)
}

fn language_items(current: &str) -> (r: Vec<CheckItem>)
    ensures
        is_language_items(r@, current@),
{
    proof {
        reveal_strlit("en-US");
        reveal_strlit("zh-CN");
        reveal_strlit("zh-TW");
        reveal_strlit("fr-FR");
        reveal_strlit("ru-RU");
        reveal_strlit("language:en-US");
        reveal_strlit("language:zh-CN");
        reveal_strlit("language:zh-TW");
        reveal_strlit("language:fr-FR");
        reveal_strlit("language:ru-RU");
        reveal_strlit("language:");
        assert("language:"@ + "en-US"@ =~= "language:en-US"@);
        assert("language:"@ + "zh-CN"@ =~= "language:zh-CN"@);
        assert("language:"@ + "zh-TW"@ =~= "language:zh-TW"@);
        assert("language:"@ + "fr-FR"@ =~= "language:fr-FR"@);
        assert("language:"@ + "ru-RU"@ =~= "language:ru-RU"@);
    }
    let mut items: Vec<CheckItem> = Vec::new();
    items.push(language_item(current, "en-US", "English"));
    items.push(language_item(current, "zh-CN", "简体中文"));
    items.push(language_item(current, "zh-TW", "繁體中文"));
    items.push(language_item(current, "fr-FR", "Français"));
    items.push(language_item(current, "ru-RU", "Русский"));
    items
}

/// The settings that the menu shows: those of `config`, or, when the settings could
/// not be read, English, the dashboard mode and privacy mode not requested.
pub open spec fn menu_language(config: Option<Config>) -> Seq<char> {
    match config {
        Some(c) => c.language@,
        None => "en-US"@,
    }
}

pub open spec fn menu_mode(config: Option<Config>) -> AppMode {
    match config {
        Some(c) => c.app_mode,
        None => AppMode::Dashboard,
    }
}

/// Whether `m` is the tray menu for the given settings, privacy mode and start-up
/// registration: the dashboard entry and a separator first in dashboard mode; then
/// privacy mode (checked when requested or on), start at login, the mode and
/// language submenus, a separator and quit.
pub open spec fn is_tray_menu(
    m: Seq<MenuEntry>,
    config: Option<Config>,
    privacy_state: PrivacyModeState,
    launcher_auto_start: Option<bool>,
) -> bool {
    let language = menu_language(config);
    let mode = menu_mode(config);
    let requested = match config {
        Some(c) => c.privacy_mode,
        None => false,
    };
    let auto_start = match launcher_auto_start {
        Some(b) => b,
        None => match config {
            Some(c) => c.auto_start,
            None => false,
        },
    };
    let offset = if mode == AppMode::Dashboard {
        2int
    } else {
        0int
    };
    exists|text: TrayText|
        #![trigger is_tray_text(text, language)]
        {
            &&& is_tray_text(text, language)
            &&& m.len() == offset + 6
            &&& mode == AppMode::Dashboard ==> m[0] == MenuEntry::Item {
                id: OPEN_DASHBOARD_ID,
                label: text.open_dashboard,
            } && m[1] == MenuEntry::Separator
            &&& m[offset] matches MenuEntry::Check(c) && is_check(
                c,
                "privacy-mode"@,
                (if privacy_state is ActivePartial {
                    text.privacy_mode_partial
                } else {
                    text.privacy_mode
                })@,
                requested || privacy_state != PrivacyModeState::Inactive,
            )
            &&& m[offset + 1] matches MenuEntry::Check(c) && is_check(c, "auto-start"@, text.auto_start@, auto_start)
            &&& m[offset + 2] matches MenuEntry::Submenu { title, items } && title == text.mode && is_mode_items(
                items@,
                text,
                mode,
            )
            &&& m[offset + 3] matches MenuEntry::Submenu { title, items } && title == text.language
                && is_language_items(items@, language)
            &&& m[offset + 4] == MenuEntry::Separator
            &&& m[offset + 5] == MenuEntry::Item { id: QUIT_ID, label: text.quit }
        }
}

/// The tray menu for the settings `config` (`None` when they could not be read),
/// the privacy mode, and whether the application is registered to start at login
/// (`None` when that could not be read; the setting is used then).
pub fn build_menu(config: Option<&Config>, privacy_state: PrivacyModeState, launcher_auto_start: Option<bool>) -> (r:
    Vec<MenuEntry>)
    ensures
        is_tray_menu(
            r@,
            match config {
                Some(c) => Some(*c),
                None => None,
            },
            privacy_state,
            launcher_auto_start,
        ),
{
    let ghost cfg = match config {
        Some(c) => Some(*c),
        None => None::<Config>,
    };
    let language: String = match config {
        Some(c) => string_of(c.language.as_str()),
        None => string_of("en-US"),
    };
    let app_mode = match config {
        Some(c) => c.app_mode,
        None => AppMode::Dashboard,
    };
    let requested = match config {
        Some(c) => c.privacy_mode,
        None => false,
    };
    let auto_start = match launcher_auto_start {
        Some(b) => b,
        None => match config {
            Some(c) => c.auto_start,
            None => false,
        },
    };
    let text = tray_text(language.as_str());
    let privacy = MenuEntry::Check(
        CheckItem {
            id: string_of(PRIVACY_MODE_ID),
            label: privacy_label(&text, privacy_state),
            checked: requested || is_privacy_enabled(privacy_state),
        },
    );
    let auto = MenuEntry::Check(
        CheckItem { id: string_of(AUTO_START_ID), label: text.auto_start, checked: auto_start },
    );
    let mode_menu = MenuEntry::Submenu { title: text.mode, items: mode_items(&text, app_mode) };
    let language_menu = MenuEntry::Submenu { title: text.language, items: language_items(language.as_str()) };
    let quit = MenuEntry::Item { id: QUIT_ID, label: text.quit };
    let mut menu: Vec<MenuEntry> = Vec::new();
    if app_mode == AppMode::Dashboard {
        menu.push(MenuEntry::Item { id: OPEN_DASHBOARD_ID, label: text.open_dashboard });
        menu.push(MenuEntry::Separator);
    }
    menu.push(privacy);
    menu.push(auto);
    menu.push(mode_menu);
    menu.push(language_menu);
    menu.push(MenuEntry::Separator);
    menu.push(quit);
    assert(language@ == menu_language(cfg));
    assert(is_tray_text(text, menu_language(cfg)));
    menu
}

/// What a click on a menu entry asks for.
#[derive(Debug, Clone, PartialEq, Eq)]
pub enum MenuAction {
    OpenDashboard,
    TogglePrivacyMode,
    ToggleAutoStart,
    Quit,
    SetMode(AppMode),
    SetLanguage(String),
    Ignore,
}

pub open spec fn spec_mode_named(name: Seq<char>) -> Option<AppMode> {
    if name == "dashboard"@ {
        Some(AppMode::Dashboard)
    } else if name == "grid"@ {
        Some(AppMode::Grid)
    } else if name == "tray"@ {
        Some(AppMode::Tray)
    } else {
        None
    }
}

/// Whether `r` is the action of the entry with `id`: an entry of the mode submenu
/// sets its mode (an unknown mode is ignored), one of the language submenu sets its
/// language, and the fixed entries do what they say.
pub open spec fn is_menu_action(r: MenuAction, id: Seq<char>) -> bool {
    if id.len() >= 5 && id.subrange(0, 5) == "mode:"@ {
        match spec_mode_named(id.subrange(5, id.len() as int)) {
            Some(m) => r == MenuAction::SetMode(m),
            None => r == MenuAction::Ignore,
        }
    } else if id.len() >= 9 && id.subrange(0, 9) == "language:"@ {
        r matches MenuAction::SetLanguage(l) && l@ == id.subrange(9, id.len() as int)
    } else if id == "open-dashboard"@ {
        r == MenuAction::OpenDashboard
    } else if id == "privacy-mode"@ {
        r == MenuAction::TogglePrivacyMode
    } else if id == "auto-start"@ {
        r == MenuAction::ToggleAutoStart
    } else if id == "quit"@ {
        r == MenuAction::Quit
    } else {
        r == MenuAction::Ignore
    }
}

fn strip_prefix(s: &[char], prefix: &str) -> (r: Option<Vec<char>>)
    ensures
        match r {
            Some(v) => s@.len() >= prefix@.len() && s@.subrange(0, prefix@.len() as int) == prefix@ && v@
                == s@.subrange(prefix@.len() as int, s@.len() as int),
            None => !(s@.len() >= prefix@.len() && s@.subrange(0, prefix@.len() as int) == prefix@),
        },
{
    let p = chars_of(prefix);
    if p.len() > s.len() {
        return None;
    }
    let mut i: usize = 0;
    while i < p.len()
        invariant
            p@ == prefix@,
            p.len() <= s.len(),
            i <= p.len(),
            forall|k: int| 0 <= k < i ==> s@[k] == p@[k],
        decreases p.len() - i,
    {
        if s[i] != p[i] {
            assert(s@.subrange(0, p@.len() as int)[i as int] != p@[i as int]);
            return None;
        }
        i = i + 1;
    }
    assert(s@.subrange(0, p@.len() as int) =~= p@);
    let mut rest: Vec<char> = Vec::new();
    let mut j: usize = p.len();
    while j < s.len()
        invariant
            p@ == prefix@,
            p.len() <= j <= s.len(),
            rest@ == s@.subrange(p@.len() as int, j as int),
        decreases s.len() - j,
    {
        rest.push(s[j]);
        assert(s@.subrange(p@.len() as int, j + 1) == s@.subrange(p@.len() as int, j as int).push(s@[j as int]));
        j = j + 1;
    }
    Some(rest)
}

/// The action of a click on the menu entry `id`.
pub fn menu_action(id: &str) -> (r: MenuAction)
    ensures
        is_menu_action(r, id@),
{
    proof {
        reveal_strlit("mode:");
        reveal_strlit("language:");
    }
    let chars = chars_of(id);
    let s = chars.as_slice();
    if let Some(mode) = strip_prefix(s, MODE_PREFIX) {
        let m = mode.as_slice();
        return if chars_eq_str(m, "dashboard") {
            MenuAction::SetMode(AppMode::Dashboard)
        } else if chars_eq_str(m, "grid") {
            MenuAction::SetMode(AppMode::Grid)
        } else if chars_eq_str(m, "tray") {
            MenuAction::SetMode(AppMode::Tray)
        } else {
            MenuAction::Ignore
        };
    }
    if let Some(language) = strip_prefix(s, LANGUAGE_PREFIX) {
        return MenuAction::SetLanguage(string_from(language.as_slice()));
    }
    if chars_eq_str(s, OPEN_DASHBOARD_ID) {
        MenuAction::OpenDashboard
    } else if chars_eq_str(s, PRIVACY_MODE_ID) {
        MenuAction::TogglePrivacyMode
    } else if chars_eq_str(s, AUTO_START_ID) {
        MenuAction::ToggleAutoStart
    } else if chars_eq_str(s, QUIT_ID) {
        MenuAction::Quit
    } else {
        MenuAction::Ignore
    }
}

/// What a left click on the tray icon does in each mode.
#[derive(Debug, Clone, Copy, PartialEq, Eq, Structural)]
pub enum LeftClickAction {
    ShowDashboard,
    ShowGrid,
    Nothing,
}

/// A left click shows the dashboard or the grid in their modes, and does nothing in
/// tray mode; with unreadable settings the mode is taken to be the dashboard.
pub fn left_click_action(mode: Option<AppMode>) -> (r: LeftClickAction)
    ensures
        r == match mode {
            Some(AppMode::Grid) => LeftClickAction::ShowGrid,
            Some(AppMode::Tray) => LeftClickAction::Nothing,
            _ => LeftClickAction::ShowDashboard,
        },
{
    match mode {
        Some(AppMode::Grid) => LeftClickAction::ShowGrid,
        Some(AppMode::Tray) => LeftClickAction::Nothing,
        _ => LeftClickAction::ShowDashboard,
    }
}

/// Whether toggling privacy mode from the tray leaves it: it does when the setting
/// asks for privacy mode, or, when the settings could not be read, when privacy
/// mode is on.
pub fn privacy_toggle_exits(requested: Option<bool>, state: PrivacyModeState) -> (r: bool)
    ensures
        r == match requested {
            Some(b) => b,
            None => state != PrivacyModeState::Inactive,
        },
{
    match requested {
        Some(b) => b,
        None => is_privacy_enabled(state),
    }
}

/// What follows a privacy toggle from the tray.
#[derive(Debug, Clone, Copy, PartialEq, Eq, Structural)]
pub struct PrivacyToggleFollowUp {
    /// The privacy setting to save, when the toggle succeeded.
    pub persist: Option<bool>,
    /// Whether monitored cleanup is to be triggered (privacy mode was left).
    pub trigger_monitor: bool,
    /// Whether to warn that the protection is only partial.
    pub partial_warning: bool,
    /// Whether to report that the toggle failed.
    pub failure_alert: bool,
}

/// The follow-up of a toggle that left (`exiting`) or entered privacy mode with the
/// outcome `entered` (the protection, or `None` when the toggle failed).
pub fn privacy_toggle_follow_up(exiting: bool, succeeded: bool, entered: Option<LockResult>) -> (r:
    PrivacyToggleFollowUp)
    ensures
        succeeded ==> r.persist == Some(!exiting) && r.trigger_monitor == exiting && !r.failure_alert,
        !succeeded ==> r.persist is None && !r.trigger_monitor && r.failure_alert && !r.partial_warning,
        r.partial_warning == (succeeded && !exiting && entered == Some(LockResult::Partial)),
{
    if succeeded {
        PrivacyToggleFollowUp {
            persist: Some(!exiting),
            trigger_monitor: exiting,
            partial_warning: !exiting && entered == Some(LockResult::Partial),
            failure_alert: false,
        }
    } else {
        PrivacyToggleFollowUp { persist: None, trigger_monitor: false, partial_warning: false, failure_alert: true }
    }
}

/// The alert text for a failed privacy toggle.
pub fn privacy_toggle_failure_text(error: &str) -> (r: String)
    ensures
        r@ == "Failed to toggle privacy mode.\n\n"@ + error@,
{
    let mut out = string_of("Failed to toggle privacy mode.\n\n");
    push_str(&mut out, error);
    out
}

} // verus!
