//! Application settings: their values and defaults, the validation of the automatic
//! cleanup policy, the migration of stored legacy values and the normalization of
//! language tags.
use vstd::prelude::*;

use crate::history::retention_requires_trim;
use crate::text::{
    ascii_lower, ascii_lowercase_chars, chars_eq, chars_eq_str, chars_of, str_eq, string_from,
    string_of, trim_str, trimmed,
};

verus! {

/// How the application presents itself.
#[derive(Debug, Clone, Copy, PartialEq, Eq, Structural)]
pub enum AppMode {
    Dashboard,
    Grid,
    Tray,
}

impl Default for AppMode {
    fn default() -> (r: AppMode)
        ensures
            r == AppMode::Dashboard,
    {
        AppMode::Dashboard
    }
}

impl AppMode {
    pub open spec fn spec_name(self) -> Seq<char> {
        match self {
            AppMode::Dashboard => "dashboard"@,
            AppMode::Grid => "grid"@,
            AppMode::Tray => "tray"@,
        }
    }

    /// The stored name of the mode.
    pub fn as_str(self) -> (r: &'static str)
        ensures
            r@ == self.spec_name(),
    {
        match self {
            AppMode::Dashboard => "dashboard",
            AppMode::Grid => "grid",
            AppMode::Tray => "tray",
        }
    }
}

/// The mode stored under `name`; the legacy tray-only mode `minimal` is read as `Tray`.
pub open spec fn spec_app_mode_named(name: Seq<char>) -> Option<AppMode> {
    if name == "dashboard"@ {
        Some(AppMode::Dashboard)
    } else if name == "grid"@ {
        Some(AppMode::Grid)
    } else if name == "tray"@ || name == "minimal"@ {
        Some(AppMode::Tray)
    } else {
        None
    }
}

/// Reads a stored mode name, migrating the legacy `minimal` to `tray`.
pub fn app_mode_named(name: &str) -> (r: Option<AppMode>)
    ensures
        r == spec_app_mode_named(name@),
{
    let chars = chars_of(name);
    if chars_eq_str(chars.as_slice(), "dashboard") {
        Some(AppMode::Dashboard)
    } else if chars_eq_str(chars.as_slice(), "grid") {
        Some(AppMode::Grid)
    } else if chars_eq_str(chars.as_slice(), "tray") || chars_eq_str(chars.as_slice(), "minimal") {
        Some(AppMode::Tray)
    } else {
        None
    }
}

/// What closing the main window does.
#[derive(Debug, Clone, Copy, PartialEq, Eq, Structural)]
pub enum CloseBehavior {
    Hide,
    Quit,
}

impl Default for CloseBehavior {
    fn default() -> (r: CloseBehavior)
        ensures
            r == CloseBehavior::Hide,
    {
        CloseBehavior::Hide
    }
}

impl CloseBehavior {
    /// The stored name of the behavior.
    pub fn as_str(self) -> (r: &'static str)
        ensures
            r@ == (match self {
                CloseBehavior::Hide => "hide"@,
                CloseBehavior::Quit => "quit"@,
            }),
    {
        match self {
            CloseBehavior::Hide => "hide",
            CloseBehavior::Quit => "quit",
        }
    }
}

/// The color theme the user asked for.
#[derive(Debug, Clone, Copy, PartialEq, Eq, Structural)]
pub enum ThemePreference {
    System,
    Light,
    Dark,
}

impl Default for ThemePreference {
    fn default() -> (r: ThemePreference)
        ensures
            r == ThemePreference::System,
    {
        ThemePreference::System
    }
}

impl ThemePreference {
    /// The stored name of the preference.
    pub fn as_str(self) -> (r: &'static str)
        ensures
            r@ == (match self {
                ThemePreference::System => "system"@,
                ThemePreference::Light => "light"@,
                ThemePreference::Dark => "dark"@,
            }),
    {
        match self {
            ThemePreference::System => "system",
            ThemePreference::Light => "light",
            ThemePreference::Dark => "dark",
        }
    }
}

/// The layout of the navigation sidebar in stored settings from before it was
/// removed; it is read and dropped.
#[derive(Debug, Clone, Copy, PartialEq, Eq, Structural)]
pub enum SidebarVariant {
    Sidebar,
    Inset,
    Floating,
}

impl SidebarVariant {
    /// The stored name of the variant.
    pub fn as_str(self) -> (r: &'static str)
        ensures
            r@ == (match self {
                SidebarVariant::Sidebar => "sidebar"@,
                SidebarVariant::Inset => "inset"@,
                SidebarVariant::Floating => "floating"@,
            }),
    {
        match self {
            SidebarVariant::Sidebar => "sidebar",
            SidebarVariant::Inset => "inset",
            SidebarVariant::Floating => "floating",
        }
    }
}

/// Why an automatic cleanup schedule is invalid.
#[derive(Debug, Clone, Copy, PartialEq, Eq, Structural)]
pub enum ScheduleError {
    IntervalOutOfRange,
    HourOutOfRange,
    MinuteOutOfRange,
}

pub open spec fn schedule_error_text(e: ScheduleError) -> Seq<char> {
    match e {
        ScheduleError::IntervalOutOfRange => "auto-clean interval must be between 1 and 168 hours"@,
        ScheduleError::HourOutOfRange => "auto-clean hour must be between 0 and 23"@,
        ScheduleError::MinuteOutOfRange => "auto-clean minute must be between 0 and 59"@,
    }
}

impl ScheduleError {
    /// The description of the problem.
    pub fn message(&self) -> (r: &'static str)
        ensures
            r@ == schedule_error_text(*self),
    {
        match self {
            ScheduleError::IntervalOutOfRange => "auto-clean interval must be between 1 and 168 hours",
            ScheduleError::HourOutOfRange => "auto-clean hour must be between 0 and 23",
            ScheduleError::MinuteOutOfRange => "auto-clean minute must be between 0 and 59",
        }
    }
}

/// The longest interval between scheduled cleanups, in hours (one week).
pub const MAX_INTERVAL_HOURS: u32 = 168;

/// The verdict on an interval of `hours` and a daily time `hour`:`minute`.
pub open spec fn spec_check_interval(hours: u32) -> Result<(), ScheduleError> {
    if 1 <= hours && hours <= 168 {
        Ok(())
    } else {
        Err(ScheduleError::IntervalOutOfRange)
    }
}

pub open spec fn spec_check_daily(hour: u8, minute: u8) -> Result<(), ScheduleError> {
    if hour > 23 {
        Err(ScheduleError::HourOutOfRange)
    } else if minute > 59 {
        Err(ScheduleError::MinuteOutOfRange)
    } else {
        Ok(())
    }
}

fn check_interval(hours: u32) -> (r: Result<(), ScheduleError>)
    ensures
        r == spec_check_interval(hours),
{
    if 1 <= hours && hours <= MAX_INTERVAL_HOURS {
        Ok(())
    } else {
        Err(ScheduleError::IntervalOutOfRange)
    }
}

fn check_daily(hour: u8, minute: u8) -> (r: Result<(), ScheduleError>)
    ensures
        r == spec_check_daily(hour, minute),
{
    if hour > 23 {
        Err(ScheduleError::HourOutOfRange)
    } else if minute > 59 {
        Err(ScheduleError::MinuteOutOfRange)
    } else {
        Ok(())
    }
}

/// When automatic cleanups run.
#[derive(Debug, Clone, Copy, PartialEq, Eq, Structural)]
pub enum AutoCleanPolicy {
    /// Never.
    Disabled,
    /// Whenever a change in Quick Access is detected.
    Monitor,
    /// Every `hours` hours.
    EveryHours { hours: u32 },
    /// Every day at `hour`:`minute`, local time.
    DailyAt { hour: u8, minute: u8 },
}

impl Default for AutoCleanPolicy {
    fn default() -> (r: AutoCleanPolicy)
        ensures
            r == AutoCleanPolicy::Disabled,
    {
        AutoCleanPolicy::Disabled
    }
}

pub open spec fn spec_policy_valid(p: AutoCleanPolicy) -> Result<(), ScheduleError> {
    match p {
        AutoCleanPolicy::EveryHours { hours } => spec_check_interval(hours),
        AutoCleanPolicy::DailyAt { hour, minute } => spec_check_daily(hour, minute),
        _ => Ok(()),
    }
}

impl AutoCleanPolicy {
    /// An interval must be 1 to 168 hours; a daily time must be 00:00 to 23:59.
    pub fn validate(&self) -> (r: Result<(), ScheduleError>)
        ensures
            r == spec_policy_valid(*self),
    {
        match self {
            AutoCleanPolicy::EveryHours { hours } => check_interval(*hours),
            AutoCleanPolicy::DailyAt { hour, minute } => check_daily(*hour, *minute),
            _ => Ok(()),
        }
    }
}

/// An automatic cleanup schedule as stored before the policies replaced it; it
/// could also run once at startup.
#[derive(Debug, Clone, Copy, PartialEq, Eq, Structural)]
pub enum AutoCleanSchedule {
    Disabled,
    OnStartup,
    EveryHours { hours: u32 },
    DailyAt { hour: u8, minute: u8 },
}

pub open spec fn spec_migrate_schedule(s: AutoCleanSchedule) -> AutoCleanPolicy {
    match s {
        AutoCleanSchedule::Disabled | AutoCleanSchedule::OnStartup => AutoCleanPolicy::Disabled,
        AutoCleanSchedule::EveryHours { hours } => AutoCleanPolicy::EveryHours { hours },
        AutoCleanSchedule::DailyAt { hour, minute } => AutoCleanPolicy::DailyAt { hour, minute },
    }
}

impl AutoCleanSchedule {
    /// An interval must be 1 to 168 hours; a daily time must be 00:00 to 23:59.
    pub fn validate(&self) -> (r: Result<(), ScheduleError>)
        ensures
            r == match *self {
                AutoCleanSchedule::EveryHours { hours } => spec_check_interval(hours),
                AutoCleanSchedule::DailyAt { hour, minute } => spec_check_daily(hour, minute),
                _ => Ok(()),
            },
    {
        match self {
            AutoCleanSchedule::EveryHours { hours } => check_interval(*hours),
            AutoCleanSchedule::DailyAt { hour, minute } => check_daily(*hour, *minute),
            _ => Ok(()),
        }
    }

    /// The policy that replaces a stored schedule: the unsupported startup-only
    /// schedule becomes `Disabled`; the others keep their kind and values.
    pub fn migrate(self) -> (r: AutoCleanPolicy)
        ensures
            r == spec_migrate_schedule(self),
    {
        match self {
            AutoCleanSchedule::Disabled | AutoCleanSchedule::OnStartup => AutoCleanPolicy::Disabled,
            AutoCleanSchedule::EveryHours { hours } => AutoCleanPolicy::EveryHours { hours },
            AutoCleanSchedule::DailyAt { hour, minute } => AutoCleanPolicy::DailyAt { hour, minute },
        }
    }
}

/// Migrating a stored schedule never turns a valid schedule into an invalid policy,
/// nor an invalid one into a valid policy; and a policy, once migrated, stays as it is.
pub proof fn law_migration_keeps_validity(s: AutoCleanSchedule)
    ensures
        spec_policy_valid(spec_migrate_schedule(s)) == match s {
            AutoCleanSchedule::EveryHours { hours } => spec_check_interval(hours),
            AutoCleanSchedule::DailyAt { hour, minute } => spec_check_daily(hour, minute),
            _ => Ok(()),
        },
        spec_migrate_schedule(s) != AutoCleanPolicy::Monitor,
{
}

/// The application settings. The time of the last automatic cleanup is kept in
/// milliseconds since the Unix epoch.
#[derive(Debug, Clone, PartialEq, Eq)]
pub struct Config {
    pub app_mode: AppMode,
    pub language: String,
    pub auto_start: bool,
    pub privacy_mode: bool,
    pub privacy_mode_cleanup_links: bool,
    pub close_behavior: CloseBehavior,
    pub theme: ThemePreference,
    pub show_recent_files: bool,
    pub show_frequent_folders: bool,
    pub notifications_enabled: bool,
    pub notify_operation_complete: bool,
    pub notify_inactive_operation_complete: bool,
    pub notify_active_operation_complete: bool,
    pub notify_partial_failure: bool,
    pub confirm_destructive_actions: bool,
    pub smart_clean_confirm: bool,
    pub history_retention: usize,
    pub auto_clean: AutoCleanPolicy,
    pub auto_clean_last_run: Option<i64>,
}

/// Whether `c` holds the default settings for `language`.
pub open spec fn is_default_config(c: Config, language: Seq<char>) -> bool {
    &&& c.app_mode == AppMode::Dashboard
    &&& c.language@ == language
    &&& !c.auto_start
    &&& !c.privacy_mode
    &&& c.privacy_mode_cleanup_links
    &&& c.close_behavior == CloseBehavior::Hide
    &&& c.theme == ThemePreference::System
    &&& c.show_recent_files
    &&& c.show_frequent_folders
    &&& c.notifications_enabled
    &&& c.notify_operation_complete
    &&& c.notify_inactive_operation_complete
    &&& !c.notify_active_operation_complete
    &&& c.notify_partial_failure
    &&& c.confirm_destructive_actions
    &&& c.smart_clean_confirm
    &&& c.history_retention == 0
    &&& c.auto_clean == AutoCleanPolicy::Disabled
    &&& c.auto_clean_last_run is None
}

impl Config {
    /// The default settings for `language`: dashboard mode, unlimited history,
    /// no automatic cleanup, notifications and confirmations on.
    pub fn new(language: String) -> (r: Config)
        ensures
            is_default_config(r, language@),
    {
        Config {
            app_mode: AppMode::Dashboard,
            language,
            auto_start: false,
            privacy_mode: false,
            privacy_mode_cleanup_links: true,
            close_behavior: CloseBehavior::Hide,
            theme: ThemePreference::System,
            show_recent_files: true,
            show_frequent_folders: true,
            notifications_enabled: true,
            notify_operation_complete: true,
            notify_inactive_operation_complete: true,
            notify_active_operation_complete: false,
            notify_partial_failure: true,
            confirm_destructive_actions: true,
            smart_clean_confirm: true,
            history_retention: 0,
            auto_clean: AutoCleanPolicy::Disabled,
            auto_clean_last_run: None,
        }
    }

    /// Settings are valid when their automatic cleanup policy is.
    pub fn validate(&self) -> (r: Result<(), ScheduleError>)
        ensures
            r == spec_policy_valid(self.auto_clean),
    {
        self.auto_clean.validate()
    }
}

/// The language used when no supported one is given.
pub const FALLBACK_LANGUAGE: &'static str = "en-US";

pub open spec fn dash_for_underscore(c: char) -> char {
    if c == '_' {
        '-'
    } else {
        c
    }
}

/// A language tag as `normalize_language` reads it: trimmed, with `_` taken as `-`,
/// in ASCII lowercase.
pub open spec fn language_tag(s: Seq<char>) -> Seq<char> {
    trimmed(s).map_values(|c: char| ascii_lower(dash_for_underscore(c)))
}

/// The non-empty `-`-separated parts read so far from `s`, and the part that is still
/// being read at its end.
pub open spec fn split_state(s: Seq<char>) -> (Seq<Seq<char>>, Seq<char>)
    decreases s.len(),
{
    if s.len() == 0 {
        (seq![], seq![])
    } else {
        let prev = split_state(s.drop_last());
        if s.last() == '-' {
            if prev.1.len() > 0 {
                (prev.0.push(prev.1), seq![])
            } else {
                (prev.0, seq![])
            }
        } else {
            (prev.0, prev.1.push(s.last()))
        }
    }
}

/// The non-empty `-`-separated parts of `s`, in order.
pub open spec fn tag_parts(s: Seq<char>) -> Seq<Seq<char>> {
    let st = split_state(s);
    if st.1.len() > 0 {
        st.0.push(st.1)
    } else {
        st.0
    }
}

/// A part that names traditional Chinese script or a region that uses it.
pub open spec fn is_traditional_part(p: Seq<char>) -> bool {
    p == "hant"@ || p == "tw"@ || p == "hk"@ || p == "mo"@
}

/// The supported language that a tag asks for: chosen by its first part, Chinese
/// being traditional when any part names traditional script or a region using it,
/// and English otherwise.
pub open spec fn spec_normalize_language(language: Seq<char>) -> Seq<char> {
    let parts = tag_parts(language_tag(language));
    if parts.len() == 0 {
        "en-US"@
    } else if parts[0] == "en"@ {
        "en-US"@
    } else if parts[0] == "fr"@ {
        "fr-FR"@
    } else if parts[0] == "ru"@ {
        "ru-RU"@
    } else if parts[0] == "zh"@ {
        if exists|i: int| 0 <= i < parts.len() && is_traditional_part(#[trigger] parts[i]) {
            "zh-TW"@
        } else {
            "zh-CN"@
        }
    } else {
        "en-US"@
    }
}

/// Normalization always gives one of the five supported languages.
pub proof fn law_normalized_language_is_supported(language: Seq<char>)
    ensures
        ({
            let r = spec_normalize_language(language);
            r == "en-US"@ || r == "fr-FR"@ || r == "ru-RU"@ || r == "zh-CN"@ || r == "zh-TW"@
        }),
{
}

/// The `-`-separated pieces of `s`, empty pieces included, as splitting at every
/// hyphen gives them.
pub open spec fn dash_pieces(s: Seq<char>) -> Seq<Seq<char>>
    decreases s.len(),
{
    if s.len() == 0 {
        seq![seq![]]
    } else {
        let prev = dash_pieces(s.drop_last());
        if s.last() == '-' {
            prev.push(seq![])
        } else {
            prev.update(prev.len() - 1, prev.last().push(s.last()))
        }
    }
}

/// Whether a piece is kept: it is not empty.
pub open spec fn nonempty_piece() -> spec_fn(Seq<char>) -> bool {
    |p: Seq<char>| p.len() > 0
}

/// The supported language for the non-empty parts of a tag: chosen by the first part,
/// Chinese being traditional when a part is `hant`, `tw`, `hk` or `mo`, and English
/// for anything else.
pub open spec fn language_for_parts(parts: Seq<Seq<char>>) -> Seq<char> {
    if parts.len() == 0 {
        "en-US"@
    } else if parts[0] == "en"@ {
        "en-US"@
    } else if parts[0] == "fr"@ {
        "fr-FR"@
    } else if parts[0] == "ru"@ {
        "ru-RU"@
    } else if parts[0] == "zh"@ {
        if parts.contains("hant"@) || parts.contains("tw"@) || parts.contains("hk"@) || parts.contains("mo"@) {
            "zh-TW"@
        } else {
            "zh-CN"@
        }
    } else {
        "en-US"@
    }
}

proof fn lemma_dash_pieces(s: Seq<char>)
    ensures
        dash_pieces(s).len() >= 1,
        dash_pieces(s).last() == split_state(s).1,
        dash_pieces(s).drop_last().filter(nonempty_piece()) == split_state(s).0,
    decreases s.len(),
{
    reveal(Seq::filter);
    if s.len() > 0 {
        lemma_dash_pieces(s.drop_last());
        let prev = dash_pieces(s.drop_last());
        if s.last() == '-' {
            assert(prev.push(seq![]).drop_last() == prev);
            assert(prev.filter(nonempty_piece()) == if prev.last().len() > 0 {
                prev.drop_last().filter(nonempty_piece()).push(prev.last())
            } else {
                prev.drop_last().filter(nonempty_piece())
            });
        } else {
            let upd = prev.update(prev.len() - 1, prev.last().push(s.last()));
            assert(upd.drop_last() == prev.drop_last());
        }
    }
}

/// The parts of a tag are its non-empty `-`-separated pieces, in order.
pub proof fn law_tag_parts_are_the_nonempty_pieces(s: Seq<char>)
    ensures
        tag_parts(s) == dash_pieces(s).filter(nonempty_piece()),
{
    reveal(Seq::filter);
    lemma_dash_pieces(s);
    let d = dash_pieces(s);
    assert(d.filter(nonempty_piece()) == if d.last().len() > 0 {
        d.drop_last().filter(nonempty_piece()).push(d.last())
    } else {
        d.drop_last().filter(nonempty_piece())
    });
}

/// Normalization splits the trimmed, lowercased tag (with `_` read as `-`) at its
/// hyphens, drops the empty pieces, and picks the language for the rest.
pub proof fn law_normalization_reads_the_nonempty_parts(language: Seq<char>)
    ensures
        spec_normalize_language(language) == language_for_parts(
            dash_pieces(language_tag(language)).filter(nonempty_piece()),
        ),
{
    let tag = language_tag(language);
    law_tag_parts_are_the_nonempty_pieces(tag);
    let parts = tag_parts(tag);
    let traditional = parts.contains("hant"@) || parts.contains("tw"@) || parts.contains("hk"@)
        || parts.contains("mo"@);
    if exists|i: int| 0 <= i < parts.len() && is_traditional_part(#[trigger] parts[i]) {
        let i = choose|i: int| 0 <= i < parts.len() && is_traditional_part(#[trigger] parts[i]);
        assert(parts.contains(parts[i]));
        assert(traditional);
    }
    if traditional {
        if parts.contains("hant"@) {
            let i = choose|i: int| 0 <= i < parts.len() && parts[i] == "hant"@;
            assert(is_traditional_part(parts[i]));
        } else if parts.contains("tw"@) {
            let i = choose|i: int| 0 <= i < parts.len() && parts[i] == "tw"@;
            assert(is_traditional_part(parts[i]));
        } else if parts.contains("hk"@) {
            let i = choose|i: int| 0 <= i < parts.len() && parts[i] == "hk"@;
            assert(is_traditional_part(parts[i]));
        } else {
            let i = choose|i: int| 0 <= i < parts.len() && parts[i] == "mo"@;
            assert(is_traditional_part(parts[i]));
        }
    }
}

fn normalized_tag(language: &str) -> (r: Vec<char>)
    ensures
        r@ == language_tag(language@),
{
    let t = trim_str(language);
    let mut out: Vec<char> = Vec::new();
    let mut i: usize = 0;
    while i < t.len()
        invariant
            i <= t@.len(),
            t@ == trimmed(language@),
            out@ == t@.take(i as int).map_values(|c: char| ascii_lower(dash_for_underscore(c))),
        decreases t@.len() - i,
    {
        let c = t[i];
        let d = if c == '_' {
            '-'
        } else {
            c
        };
        out.push(crate::text::char_to_ascii_lowercase(d));
        assert(t@.take(i + 1).map_values(|c: char| ascii_lower(dash_for_underscore(c))) =~= t@.take(
            i as int,
        ).map_values(|c: char| ascii_lower(dash_for_underscore(c))).push(ascii_lower(d)));
        i = i + 1;
    }
    assert(t@.take(t@.len() as int) == t@);
    out
}

pub open spec fn views(parts: Seq<Vec<char>>) -> Seq<Seq<char>> {
    parts.map_values(|p: Vec<char>| p@)
}

fn split_parts(tag: &Vec<char>) -> (r: Vec<Vec<char>>)
    ensures
        views(r@) == tag_parts(tag@),
{
    let mut parts: Vec<Vec<char>> = Vec::new();
    let mut cur: Vec<char> = Vec::new();
    let mut i: usize = 0;
    while i < tag.len()
        invariant
            i <= tag@.len(),
            views(parts@) == split_state(tag@.take(i as int)).0,
            cur@ == split_state(tag@.take(i as int)).1,
        decreases tag@.len() - i,
    {
        assert(tag@.take(i + 1).drop_last() == tag@.take(i as int));
        let c = tag[i];
        if c == '-' {
            if cur.len() > 0 {
                let ghost before = parts@;
                parts.push(cur);
                assert(views(parts@) =~= views(before).push(split_state(tag@.take(i as int)).1));
                cur = Vec::new();
            } else {
                cur = Vec::new();
            }
        } else {
            cur.push(c);
        }
        i = i + 1;
    }
    assert(tag@.take(tag@.len() as int) == tag@);
    if cur.len() > 0 {
        let ghost before = parts@;
        parts.push(cur);
        assert(views(parts@) =~= views(before).push(split_state(tag@).1));
    }
    parts
}

/// Normalizes a language tag such as `zh_Hant-HK` or ` FR ` to one of the supported
/// languages `en-US`, `fr-FR`, `ru-RU`, `zh-CN` and `zh-TW`, falling back to `en-US`.
pub fn normalize_language(language: &str) -> (r: String)
    ensures
        r@ == spec_normalize_language(language@),
{
    let tag = normalized_tag(language);
    let parts = split_parts(&tag);
    proof {
        reveal_strlit("en-US");
        reveal_strlit("fr-FR");
        reveal_strlit("ru-RU");
        reveal_strlit("zh-CN");
        reveal_strlit("zh-TW");
    }
    if parts.len() == 0 {
        return string_of("en-US");
    }
    assert(views(parts@)[0] == parts@[0]@);
    let first = parts[0].as_slice();
    if chars_eq_str(first, "en") {
        string_of("en-US")
    } else if chars_eq_str(first, "fr") {
        string_of("fr-FR")
    } else if chars_eq_str(first, "ru") {
        string_of("ru-RU")
    } else if chars_eq_str(first, "zh") {
        let ghost ps = views(parts@);
        let mut traditional = false;
        let mut i: usize = 0;
        while i < parts.len()
            invariant
                i <= parts@.len(),
                ps == views(parts@),
                traditional <==> exists|k: int| 0 <= k < i && is_traditional_part(#[trigger] ps[k]),
            decreases parts@.len() - i,
        {
            let p = parts[i].as_slice();
            assert(ps[i as int] == p@);
            if chars_eq_str(p, "hant") || chars_eq_str(p, "tw") || chars_eq_str(p, "hk") || chars_eq_str(
                p,
                "mo",
            ) {
                traditional = true;
            }
            i = i + 1;
        }
        if traditional {
            string_of("zh-TW")
        } else {
            string_of("zh-CN")
        }
    } else {
        string_of("en-US")
    }
}

/// The language used when none is detected.
pub fn default_language() -> (r: String)
    ensures
        r@ == "en-US"@,
{
    string_of(FALLBACK_LANGUAGE)
}

} // verus!
