//! What commands answer: receipts of completed actions, the privacy guard on
//! Quick Access writes, and the command error that each kind of failure is reported as.
use vstd::prelude::*;

use crate::auto_clean::AutoCleanError;
use crate::config::AppMode;
use crate::error::{
    is_next_id, issued_one, spec_classify_wincent, wincent_command_error, CommandError,
    CommandGuardError, ErrorCode, IncidentIds, WincentErrorKind,
};
use crate::privacy::PrivacyModeState;
use crate::text::{
    chars_of, ends_with, ends_with_str, push_str, starts_with, starts_with_str, string_of, trim_str,
    trimmed,
};

verus! {

/// The receipt of a completed action: what was done, to what, and to how many items.
#[derive(Debug, Clone, PartialEq, Eq)]
pub struct ActionReceipt {
    pub action: &'static str,
    pub target: String,
    pub affected: u64,
}

impl ActionReceipt {
    pub fn new(action: &'static str, target: &str, affected: u64) -> (r: ActionReceipt)
        ensures
            r.action == action,
            r.target@ == target@,
            r.affected == affected,
    {
        ActionReceipt { action, target: string_of(target), affected }
    }
}

/// `e` carries the next incident id of `before`, which has become `after` by issuing it.
pub open spec fn fresh_error(e: CommandError, before: IncidentIds, after: IncidentIds) -> bool {
    is_next_id(e.incident_id@, before) && issued_one(before, after)
}

/// Whether `e` has the given code, message and retry advice.
pub open spec fn is_command_error(e: CommandError, code: ErrorCode, message: Seq<char>, retryable: bool) -> bool {
    e.code == code && e.message@ == message && e.retryable == retryable
}

/// Quick Access may be changed only while privacy mode is off; otherwise the request
/// is refused as `PrivacyWriteBlocked`, which may succeed when retried later.
pub fn ensure_quick_access_write_allowed(ids: &mut IncidentIds, state: PrivacyModeState) -> (r: Result<(), CommandError>)
    ensures
        state == PrivacyModeState::Inactive <==> r is Ok,
        r matches Err(e) ==> is_command_error(
            e,
            ErrorCode::PrivacyWriteBlocked,
            "The operation is unavailable while privacy mode is active."@,
            true,
        ),
        r matches Err(e) ==> fresh_error(e, *old(ids), *final(ids)),
        r is Ok ==> *final(ids) == *old(ids),
{
    if state == PrivacyModeState::Inactive {
        Ok(())
    } else {
        let detail = CommandGuardError::PrivacyWriteBlocked.message();
        Err(
            CommandError::expected(
                ids,
                "quick_access_write_guard",
                ErrorCode::PrivacyWriteBlocked,
                "The operation is unavailable while privacy mode is active.",
                true,
                detail,
            ),
        )
    }
}

/// The error for shared application state that could not be read.
pub fn state_error<E: std::fmt::Display>(ids: &mut IncidentIds, operation: &str, error: E) -> (r: CommandError)
    ensures
        is_command_error(r, ErrorCode::InternalUnexpected, "Application state is temporarily unavailable."@, true),
        fresh_error(r, *old(ids), *final(ids)),
{
    let detail = CommandGuardError::StateUnavailable(crate::error::display_alternate(&error)).message();
    CommandError::unexpected(
                ids,
        operation,
        ErrorCode::InternalUnexpected,
        "Application state is temporarily unavailable.",
        true,
        detail,
    )
}

/// The first check on a path to reveal in Explorer: a path that is blank is
/// refused; otherwise it is handed back, for its existence to be checked.
pub fn validate_open_path(path: &str) -> (r: Result<String, String>)
    ensures
        trimmed(path@).len() == 0 ==> (r matches Err(m) && m@ == "Path is empty."@),
        trimmed(path@).len() > 0 ==> (r matches Ok(p) && p@ == path@),
{
    let t = trim_str(path);
    if t.len() == 0 {
        Err(string_of("Path is empty."))
    } else {
        Ok(string_of(path))
    }
}

/// The refusal of a path to reveal that does not exist.
pub fn missing_path_error(path: &str) -> (r: String)
    ensures
        r@ == "Path does not exist: "@ + path@,
{
    let mut out = string_of("Path does not exist: ");
    push_str(&mut out, path);
    out
}

/// What a cleanup failure came from.
#[derive(Debug, Clone, Copy, PartialEq, Eq, Structural)]
pub enum CleanupFailureSource {
    /// The database was unavailable.
    DatabaseUnavailable,
    /// The request named a category that is not cleaned.
    InvalidType,
    /// Quick Access failed, with the classified failure when the chain holds one.
    QuickAccess(Option<WincentErrorKind>),
}

/// The command error for a failed cleanup request.
pub fn cleanup_error<E: std::fmt::Display>(
    ids: &mut IncidentIds,
    operation: &str, source: CleanupFailureSource, error: E) -> (r:
    CommandError)
    ensures
        match source {
            CleanupFailureSource::DatabaseUnavailable => is_command_error(
                r,
                ErrorCode::DatabaseUnavailable,
                "The cleanup database is unavailable."@,
                true,
            ),
            CleanupFailureSource::InvalidType => is_command_error(
                r,
                ErrorCode::ValidationInvalidArgument,
                "The requested Quick Access type is invalid."@,
                false,
            ),
            CleanupFailureSource::QuickAccess(Some(k)) => {
                let c = spec_classify_wincent(k);
                is_command_error(r, c.0, c.1, c.2)
            },
            CleanupFailureSource::QuickAccess(None) => is_command_error(
                r,
                ErrorCode::QuickAccessOperationFailed,
                "The Quick Access operation could not be completed."@,
                false,
            ),
        },
        fresh_error(r, *old(ids), *final(ids)),
{
    match source {
        CleanupFailureSource::DatabaseUnavailable => CommandError::unexpected(
                ids,
            operation,
            ErrorCode::DatabaseUnavailable,
            "The cleanup database is unavailable.",
            true,
            error,
        ),
        CleanupFailureSource::InvalidType => CommandError::expected(
                ids,
            operation,
            ErrorCode::ValidationInvalidArgument,
            "The requested Quick Access type is invalid.",
            false,
            error,
        ),
        CleanupFailureSource::QuickAccess(kind) => wincent_command_error(ids, operation, kind, error),
    }
}

/// The command error for an automatic cleanup started on request that failed:
/// a refusal keeps its meaning; any other failure is reported as unavailable.
pub fn auto_clean_command_error<E: std::fmt::Display>(
    ids: &mut IncidentIds,
    refusal: Option<AutoCleanError>, error: E) -> (r:
    CommandError)
    ensures
        match refusal {
            Some(AutoCleanError::AlreadyRunning) => is_command_error(
                r,
                ErrorCode::AutoCleanAlreadyRunning,
                "Automatic cleanup is already running."@,
                true,
            ),
            Some(AutoCleanError::DatabaseUnavailable) => is_command_error(
                r,
                ErrorCode::DatabaseUnavailable,
                "Automatic cleanup requires an available database."@,
                true,
            ),
            Some(AutoCleanError::PrivacyModeActive) => is_command_error(
                r,
                ErrorCode::PrivacyWriteBlocked,
                "Automatic cleanup is unavailable while privacy mode is active."@,
                true,
            ),
            _ => is_command_error(
                r,
                ErrorCode::AutoCleanUnavailable,
                "Automatic cleanup could not be completed."@,
                true,
            ),
        },
        fresh_error(r, *old(ids), *final(ids)),
{
    let (code, message, expected) = match refusal {
        Some(AutoCleanError::AlreadyRunning) => (
            ErrorCode::AutoCleanAlreadyRunning,
            "Automatic cleanup is already running.",
            true,
        ),
        Some(AutoCleanError::DatabaseUnavailable) => (
            ErrorCode::DatabaseUnavailable,
            "Automatic cleanup requires an available database.",
            true,
        ),
        Some(AutoCleanError::PrivacyModeActive) => (
            ErrorCode::PrivacyWriteBlocked,
            "Automatic cleanup is unavailable while privacy mode is active.",
            true,
        ),
        _ => (ErrorCode::AutoCleanUnavailable, "Automatic cleanup could not be completed.", false),
    };
    crate::error::command_error(ids, "run_auto_clean_now", code, message, true, error, expected)
}

/// What a history failure came from.
#[derive(Debug, Clone, Copy, PartialEq, Eq, Structural)]
pub enum HistoryFailureSource {
    DatabaseUnavailable,
    InvalidRequest,
    Other,
}

/// The command error for a failed history request: an invalid request cannot
/// succeed when retried; the other failures may.
pub fn history_error<E: std::fmt::Display>(
    ids: &mut IncidentIds,
    operation: &str, source: HistoryFailureSource, error: E) -> (r:
    CommandError)
    ensures
        match source {
            HistoryFailureSource::DatabaseUnavailable => is_command_error(
                r,
                ErrorCode::DatabaseUnavailable,
                "The cleanup database is unavailable."@,
                true,
            ),
            HistoryFailureSource::InvalidRequest => is_command_error(
                r,
                ErrorCode::ValidationInvalidArgument,
                "The history request is invalid."@,
                false,
            ),
            HistoryFailureSource::Other => is_command_error(
                r,
                ErrorCode::InternalUnexpected,
                "The history operation could not be completed."@,
                true,
            ),
        },
        fresh_error(r, *old(ids), *final(ids)),
{
    match source {
        HistoryFailureSource::DatabaseUnavailable => CommandError::unexpected(
                ids,
            operation,
            ErrorCode::DatabaseUnavailable,
            "The cleanup database is unavailable.",
            true,
            error,
        ),
        HistoryFailureSource::InvalidRequest => CommandError::expected(
                ids,
            operation,
            ErrorCode::ValidationInvalidArgument,
            "The history request is invalid.",
            false,
            error,
        ),
        HistoryFailureSource::Other => CommandError::unexpected(
                ids,
            operation,
            ErrorCode::InternalUnexpected,
            "The history operation could not be completed.",
            true,
            error,
        ),
    }
}

/// What a rule failure came from.
#[derive(Debug, Clone, Copy, PartialEq, Eq, Structural)]
pub enum RuleFailureSource {
    /// The rule file to import or export is invalid.
    InvalidTransfer,
    /// The rule does not exist.
    NotFound,
    /// The keyword is empty.
    EmptyKeyword,
    /// The database was unavailable.
    DatabaseUnavailable,
    Other,
}

/// The command error for a failed rule request: invalid requests and missing rules
/// cannot succeed when retried; the other failures may.
pub fn database_error<E: std::fmt::Display>(
    ids: &mut IncidentIds,
    operation: &str, source: RuleFailureSource, error: E) -> (r:
    CommandError)
    ensures
        match source {
            RuleFailureSource::InvalidTransfer => is_command_error(
                r,
                ErrorCode::ValidationInvalidArgument,
                "The rule import or export file is invalid."@,
                false,
            ),
            RuleFailureSource::NotFound => is_command_error(
                r,
                ErrorCode::ResourceNotFound,
                "The requested rule was not found."@,
                false,
            ),
            RuleFailureSource::EmptyKeyword => is_command_error(
                r,
                ErrorCode::ValidationInvalidArgument,
                "The rule keyword is invalid."@,
                false,
            ),
            RuleFailureSource::DatabaseUnavailable => is_command_error(
                r,
                ErrorCode::DatabaseUnavailable,
                "The rule database is unavailable."@,
                true,
            ),
            RuleFailureSource::Other => is_command_error(
                r,
                ErrorCode::InternalUnexpected,
                "The rule operation could not be completed."@,
                true,
            ),
        },
        fresh_error(r, *old(ids), *final(ids)),
{
    let (code, message) = match source {
        RuleFailureSource::InvalidTransfer => (
            ErrorCode::ValidationInvalidArgument,
            "The rule import or export file is invalid.",
        ),
        RuleFailureSource::NotFound => (ErrorCode::ResourceNotFound, "The requested rule was not found."),
        RuleFailureSource::EmptyKeyword => (ErrorCode::ValidationInvalidArgument, "The rule keyword is invalid."),
        RuleFailureSource::DatabaseUnavailable => (
            ErrorCode::DatabaseUnavailable,
            "The rule database is unavailable.",
        ),
        RuleFailureSource::Other => (ErrorCode::InternalUnexpected, "The rule operation could not be completed."),
    };
    if code == ErrorCode::ResourceNotFound || code == ErrorCode::ValidationInvalidArgument {
        CommandError::expected(ids, operation, code, message, false, error)
    } else {
        CommandError::unexpected(ids, operation, code, message, true, error)
    }
}

/// The target named in the receipt of clearing rules.
pub fn clear_rules_target(selected: bool) -> (r: &'static str)
    ensures
        r@ == (if selected {
            "selected"@
        } else {
            "all"@
        }),
{
    if selected {
        "selected"
    } else {
        "all"
    }
}

/// The other failures of commands, each reported in a fixed way.
#[derive(Debug, Clone, Copy, PartialEq, Eq, Structural)]
pub enum CommandFailure {
    UpdateConfig,
    SetAppMode,
    HideAbout,
    PrivacyEnter,
    PrivacyEnterPersist,
    PrivacyExit,
    PrivacyExitPersist,
    LogDirectoryStatus,
    LogDirectoryUnavailable,
    LogDirectoryCreate,
    LogDirectoryOpen,
    ProgramLogsUnavailable,
    ProgramLogsClear,
    DatabaseDirectoryUnavailable,
    DatabaseDirectoryMissing,
    DatabaseDirectoryOpen,
    GridSummary,
}

/// How each failure is reported: the operation, the code, the message, whether a
/// retry may help, and whether the failure is an anticipated one.
pub open spec fn spec_failure(f: CommandFailure) -> (Seq<char>, ErrorCode, Seq<char>, bool, bool) {
    match f {
        CommandFailure::UpdateConfig => ("update_config"@, ErrorCode::ConfigPersistenceFailed, "The application settings could not be saved."@, true, false),
        CommandFailure::SetAppMode => ("set_app_mode"@, ErrorCode::ConfigPersistenceFailed, "The application mode could not be changed."@, true, false),
        CommandFailure::HideAbout => ("hide_about"@, ErrorCode::SystemOperationFailed, "The About view could not be closed."@, true, false),
        CommandFailure::PrivacyEnter => ("privacy_enter"@, ErrorCode::QuickAccessOperationFailed, "Privacy mode could not be enabled."@, true, false),
        CommandFailure::PrivacyEnterPersist => ("privacy_enter"@, ErrorCode::ConfigPersistenceFailed, "Privacy mode was enabled, but the preference could not be saved."@, true, false),
        CommandFailure::PrivacyExit => ("privacy_exit"@, ErrorCode::QuickAccessOperationFailed, "Privacy mode could not be disabled."@, true, false),
        CommandFailure::PrivacyExitPersist => ("privacy_exit"@, ErrorCode::ConfigPersistenceFailed, "Privacy mode was disabled, but the preference could not be saved."@, true, false),
        CommandFailure::LogDirectoryStatus => ("get_log_directory_status"@, ErrorCode::SystemOperationFailed, "The log directory is unavailable."@, true, false),
        CommandFailure::LogDirectoryUnavailable => ("open_log_directory"@, ErrorCode::SystemOperationFailed, "The log directory is unavailable."@, true, false),
        CommandFailure::LogDirectoryCreate => ("open_log_directory"@, ErrorCode::SystemOperationFailed, "The log directory could not be created."@, true, false),
        CommandFailure::LogDirectoryOpen => ("open_log_directory"@, ErrorCode::SystemOperationFailed, "The log directory could not be opened."@, true, false),
        CommandFailure::ProgramLogsUnavailable => ("clear_program_logs"@, ErrorCode::SystemOperationFailed, "The program logs are unavailable."@, true, false),
        CommandFailure::ProgramLogsClear => ("clear_program_logs"@, ErrorCode::SystemOperationFailed, "The program logs could not be cleared."@, true, false),
        CommandFailure::DatabaseDirectoryUnavailable => ("open_database_directory"@, ErrorCode::DatabaseUnavailable, "The database directory is unavailable."@, true, true),
        CommandFailure::DatabaseDirectoryMissing => ("open_database_directory"@, ErrorCode::ResourceNotFound, "The database directory does not exist."@, true, true),
        CommandFailure::DatabaseDirectoryOpen => ("open_database_directory"@, ErrorCode::SystemOperationFailed, "The database directory could not be opened."@, true, false),
        CommandFailure::GridSummary => ("get_grid_summary"@, ErrorCode::InternalUnexpected, "The grid summary could not be loaded."@, true, false),
    }
}

fn failure_parts(f: CommandFailure) -> (r: (&'static str, ErrorCode, &'static str, bool, bool))
    ensures
        r.0@ == spec_failure(f).0,
        r.1 == spec_failure(f).1,
        r.2@ == spec_failure(f).2,
        r.3 == spec_failure(f).3,
        r.4 == spec_failure(f).4,
{
    match f {
        CommandFailure::UpdateConfig => ("update_config", ErrorCode::ConfigPersistenceFailed, "The application settings could not be saved.", true, false),
        CommandFailure::SetAppMode => ("set_app_mode", ErrorCode::ConfigPersistenceFailed, "The application mode could not be changed.", true, false),
        CommandFailure::HideAbout => ("hide_about", ErrorCode::SystemOperationFailed, "The About view could not be closed.", true, false),
        CommandFailure::PrivacyEnter => ("privacy_enter", ErrorCode::QuickAccessOperationFailed, "Privacy mode could not be enabled.", true, false),
        CommandFailure::PrivacyEnterPersist => ("privacy_enter", ErrorCode::ConfigPersistenceFailed, "Privacy mode was enabled, but the preference could not be saved.", true, false),
        CommandFailure::PrivacyExit => ("privacy_exit", ErrorCode::QuickAccessOperationFailed, "Privacy mode could not be disabled.", true, false),
        CommandFailure::PrivacyExitPersist => ("privacy_exit", ErrorCode::ConfigPersistenceFailed, "Privacy mode was disabled, but the preference could not be saved.", true, false),
        CommandFailure::LogDirectoryStatus => ("get_log_directory_status", ErrorCode::SystemOperationFailed, "The log directory is unavailable.", true, false),
        CommandFailure::LogDirectoryUnavailable => ("open_log_directory", ErrorCode::SystemOperationFailed, "The log directory is unavailable.", true, false),
        CommandFailure::LogDirectoryCreate => ("open_log_directory", ErrorCode::SystemOperationFailed, "The log directory could not be created.", true, false),
        CommandFailure::LogDirectoryOpen => ("open_log_directory", ErrorCode::SystemOperationFailed, "The log directory could not be opened.", true, false),
        CommandFailure::ProgramLogsUnavailable => ("clear_program_logs", ErrorCode::SystemOperationFailed, "The program logs are unavailable.", true, false),
        CommandFailure::ProgramLogsClear => ("clear_program_logs", ErrorCode::SystemOperationFailed, "The program logs could not be cleared.", true, false),
        CommandFailure::DatabaseDirectoryUnavailable => ("open_database_directory", ErrorCode::DatabaseUnavailable, "The database directory is unavailable.", true, true),
        CommandFailure::DatabaseDirectoryMissing => ("open_database_directory", ErrorCode::ResourceNotFound, "The database directory does not exist.", true, true),
        CommandFailure::DatabaseDirectoryOpen => ("open_database_directory", ErrorCode::SystemOperationFailed, "The database directory could not be opened.", true, false),
        CommandFailure::GridSummary => ("get_grid_summary", ErrorCode::InternalUnexpected, "The grid summary could not be loaded.", true, false),
    }
}

/// The command error for `failure`, with `error` as the detail that is logged.
pub fn command_failure<E: std::fmt::Display>(ids: &mut IncidentIds, failure: CommandFailure, error: E) -> (r: CommandError)
    ensures
        is_command_error(r, spec_failure(failure).1, spec_failure(failure).2, spec_failure(failure).3),
        fresh_error(r, *old(ids), *final(ids)),
{
    let (operation, code, message, retryable, expected) = failure_parts(failure);
    crate::error::command_error(ids, operation, code, message, retryable, error, expected)
}

/// How the About view is closed: the dashboard navigates back to its start page;
/// the other modes, or unknown settings, hide the main window.
#[derive(Debug, Clone, Copy, PartialEq, Eq, Structural)]
pub enum AboutClose {
    NavigateHome,
    HideWindow,
}

pub fn about_close_action(mode: Option<AppMode>) -> (r: AboutClose)
    ensures
        r == (if mode == Some(AppMode::Dashboard) {
            AboutClose::NavigateHome
        } else {
            AboutClose::HideWindow
        }),
{
    match mode {
        Some(AppMode::Dashboard) => AboutClose::NavigateHome,
        _ => AboutClose::HideWindow,
    }
}

/// What clearing the program logs does with a file of the log directory.
#[derive(Debug, Clone, Copy, PartialEq, Eq, Structural)]
pub enum LogFileAction {
    /// The current log is emptied.
    Truncate,
    /// A rotated log is deleted.
    Remove,
    /// Any other file is left alone.
    Keep,
}

pub open spec fn spec_log_file_action(name: Seq<char>) -> LogFileAction {
    if name == "scourgify.log"@ {
        LogFileAction::Truncate
    } else if starts_with(name, "scourgify_"@) && (ends_with(name, ".log"@) || ends_with(name, ".log.bak"@)) {
        LogFileAction::Remove
    } else {
        LogFileAction::Keep
    }
}

/// What clearing the program logs does with the file `name`: the current log
/// `scourgify.log` is emptied; rotated logs, named `scourgify_` and ending in `.log`
/// or `.log.bak`, are deleted; other files are kept.
pub fn log_file_action(name: &str) -> (r: LogFileAction)
    ensures
        r == spec_log_file_action(name@),
{
    let chars = chars_of(name);
    let s = chars.as_slice();
    if crate::text::chars_eq_str(s, "scourgify.log") {
        return LogFileAction::Truncate;
    }
    if starts_with_str(s, "scourgify_") && (ends_with_str(s, ".log") || ends_with_str(s, ".log.bak")) {
        LogFileAction::Remove
    } else {
        LogFileAction::Keep
    }
}

} // verus!
