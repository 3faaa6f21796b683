//! Structured command errors and warnings with stable codes and incident ids.
use vstd::prelude::*;

use crate::clock::{epoch_millis, read_clock};
use crate::text::{
    digits, digits_of, lemma_after_last_dash, lemma_digits_have_no_dash, lemma_digits_injective, push_chars,
    push_str,
};

verus! {

/// Stable error codes reported to the user interface.
#[derive(Debug, Clone, Copy, PartialEq, Eq, Structural)]
pub enum ErrorCode {
    AutoCleanAlreadyRunning,
    AutoCleanUnavailable,
    ConfigPersistenceFailed,
    DatabaseUnavailable,
    InternalUnexpected,
    PrivacyWriteBlocked,
    QuickAccessAlreadyExists,
    QuickAccessMetadataUnavailable,
    QuickAccessOperationFailed,
    QuickAccessPartialFailure,
    QuickAccessPermissionDenied,
    QuickAccessTimeout,
    ResourceNotFound,
    SystemOperationFailed,
    ValidationInvalidArgument,
}

impl ErrorCode {
    pub open spec fn spec_name(self) -> Seq<char> {
        match self {
            ErrorCode::AutoCleanAlreadyRunning => "auto_clean_already_running"@,
            ErrorCode::AutoCleanUnavailable => "auto_clean_unavailable"@,
            ErrorCode::ConfigPersistenceFailed => "config_persistence_failed"@,
            ErrorCode::DatabaseUnavailable => "database_unavailable"@,
            ErrorCode::InternalUnexpected => "internal_unexpected"@,
            ErrorCode::PrivacyWriteBlocked => "privacy_write_blocked"@,
            ErrorCode::QuickAccessAlreadyExists => "quick_access_already_exists"@,
            ErrorCode::QuickAccessMetadataUnavailable => "quick_access_metadata_unavailable"@,
            ErrorCode::QuickAccessOperationFailed => "quick_access_operation_failed"@,
            ErrorCode::QuickAccessPartialFailure => "quick_access_partial_failure"@,
            ErrorCode::QuickAccessPermissionDenied => "quick_access_permission_denied"@,
            ErrorCode::QuickAccessTimeout => "quick_access_timeout"@,
            ErrorCode::ResourceNotFound => "resource_not_found"@,
            ErrorCode::SystemOperationFailed => "system_operation_failed"@,
            ErrorCode::ValidationInvalidArgument => "validation_invalid_argument"@,
        }
    }

    /// The snake-case name under which the code is reported.
    pub fn as_str(self) -> (r: &'static str)
        ensures
            r@ == self.spec_name(),
    {
        match self {
            ErrorCode::AutoCleanAlreadyRunning => "auto_clean_already_running",
            ErrorCode::AutoCleanUnavailable => "auto_clean_unavailable",
            ErrorCode::ConfigPersistenceFailed => "config_persistence_failed",
            ErrorCode::DatabaseUnavailable => "database_unavailable",
            ErrorCode::InternalUnexpected => "internal_unexpected",
            ErrorCode::PrivacyWriteBlocked => "privacy_write_blocked",
            ErrorCode::QuickAccessAlreadyExists => "quick_access_already_exists",
            ErrorCode::QuickAccessMetadataUnavailable => "quick_access_metadata_unavailable",
            ErrorCode::QuickAccessOperationFailed => "quick_access_operation_failed",
            ErrorCode::QuickAccessPartialFailure => "quick_access_partial_failure",
            ErrorCode::QuickAccessPermissionDenied => "quick_access_permission_denied",
            ErrorCode::QuickAccessTimeout => "quick_access_timeout",
            ErrorCode::ResourceNotFound => "resource_not_found",
            ErrorCode::SystemOperationFailed => "system_operation_failed",
            ErrorCode::ValidationInvalidArgument => "validation_invalid_argument",
        }
    }
}

/// An error reported by a command: a stable code, a user-facing message, whether a
/// retry may help, and the incident id under which the details were logged.
#[derive(Debug, Clone, PartialEq, Eq)]
pub struct CommandError {
    pub code: ErrorCode,
    pub message: String,
    pub retryable: bool,
    pub incident_id: String,
}

/// A follow-up failure after an operation that itself succeeded.
#[derive(Debug, Clone, PartialEq, Eq)]
pub struct CommandWarning {
    pub code: &'static str,
    pub step: &'static str,
    pub message: String,
    pub incident_id: String,
}

/// The text of an incident id: the milliseconds since the Unix epoch, the id of the
/// process and the incident's sequence number within the process, in lowercase
/// hexadecimal, joined by hyphens.
pub open spec fn incident_text(millis: nat, process: nat, sequence: nat) -> Seq<char> {
    digits(millis, 16) + seq!['-'] + digits(process, 16) + seq!['-'] + digits(sequence, 16)
}

/// The incident ids of one process: the id of the process and the sequence number
/// of its next incident.
#[derive(Debug)]
pub struct IncidentIds {
    process: u32,
    next: u64,
}

/// The sequence number that follows `n`; numbers wrap around after `u64::MAX`.
pub open spec fn following(n: nat) -> nat {
    if n < u64::MAX {
        n + 1
    } else {
        0
    }
}

impl IncidentIds {
    /// The id of the process.
    pub closed spec fn process(&self) -> nat {
        self.process as nat
    }

    /// The sequence number of the next incident.
    pub closed spec fn next_sequence(&self) -> nat {
        self.next as nat
    }

    /// The incident ids of the process `process`, numbered from one.
    pub fn new(process: u32) -> (r: IncidentIds)
        ensures
            r.process() == process,
            r.next_sequence() == 1,
    {
        IncidentIds { process, next: 1 }
    }
}

/// `after` is `before` once it has issued one id.
pub open spec fn issued_one(before: IncidentIds, after: IncidentIds) -> bool {
    &&& after.process() == before.process()
    &&& after.next_sequence() == following(before.next_sequence())
}

/// `id` is the id that `ids` issues next, at some millisecond.
pub open spec fn is_next_id(id: Seq<char>, ids: IncidentIds) -> bool {
    exists|m: nat| #[trigger] incident_text(m, ids.process(), ids.next_sequence()) == id
}

/// A fresh incident id: the current time, the process and the next sequence number,
/// which then advances.
pub fn next_incident_id(ids: &mut IncidentIds) -> (r: String)
    ensures
        is_next_id(r@, *old(ids)),
        issued_one(*old(ids), *final(ids)),
{
    let millis = epoch_millis(read_clock());
    let sequence = ids.next;
    let mut out = String::new();
    let m = digits_of(millis, 16);
    push_chars(&mut out, m.as_slice());
    out.push('-');
    let p = digits_of(ids.process as u64, 16);
    push_chars(&mut out, p.as_slice());
    out.push('-');
    let n = digits_of(sequence, 16);
    push_chars(&mut out, n.as_slice());
    ids.next = sequence.wrapping_add(1);
    assert(out@ == incident_text(millis as nat, old(ids).process(), old(ids).next_sequence()));
    out
}

/// Incident ids with different sequence numbers differ, whatever their times and
/// processes: an id names one incident.
pub proof fn law_incident_ids_are_distinct(m1: nat, p1: nat, s1: nat, m2: nat, p2: nat, s2: nat)
    requires
        s1 != s2,
    ensures
        incident_text(m1, p1, s1) != incident_text(m2, p2, s2),
{
    lemma_digits_have_no_dash(s1, 16);
    lemma_digits_have_no_dash(s2, 16);
    let pre1 = digits(m1, 16) + seq!['-'] + digits(p1, 16);
    let pre2 = digits(m2, 16) + seq!['-'] + digits(p2, 16);
    lemma_after_last_dash(pre1, digits(s1, 16));
    lemma_after_last_dash(pre2, digits(s2, 16));
    if incident_text(m1, p1, s1) == incident_text(m2, p2, s2) {
        lemma_digits_injective(s1, s2, 16);
    }
}

/// Two ids issued one after the other differ.
pub proof fn law_successive_incident_ids_differ(
    first: Seq<char>,
    second: Seq<char>,
    before: IncidentIds,
    after: IncidentIds,
)
    requires
        is_next_id(first, before),
        issued_one(before, after),
        is_next_id(second, after),
    ensures
        first != second,
{
    let m1 = choose|m: nat| #[trigger] incident_text(m, before.process(), before.next_sequence()) == first;
    let m2 = choose|m: nat| #[trigger] incident_text(m, after.process(), after.next_sequence()) == second;
    law_incident_ids_are_distinct(
        m1,
        before.process(),
        before.next_sequence(),
        m2,
        after.process(),
        after.next_sequence(),
    );
}

/// The log line recorded for a command error.
pub open spec fn log_record_text(
    operation: Seq<char>,
    code: Seq<char>,
    incident_id: Seq<char>,
    error: Seq<char>,
) -> Seq<char> {
    "operation="@ + operation + " code="@ + code + " incident_id="@ + incident_id + " error="@ + error
}

/// The log line for `operation`, `code`, `incident_id` and the error text `error`.
pub fn log_record(operation: &str, code: &str, incident_id: &str, error: &str) -> (r: String)
    ensures
        r@ == log_record_text(operation@, code@, incident_id@, error@),
{
    let mut out = String::new();
    push_str(&mut out, "operation=");
    push_str(&mut out, operation);
    push_str(&mut out, " code=");
    push_str(&mut out, code);
    push_str(&mut out, " incident_id=");
    push_str(&mut out, incident_id);
    push_str(&mut out, " error=");
    push_str(&mut out, error);
    out
}

/// Formats `error` with `{:#}`, which for error chains prints every cause. What the
/// text holds is decided by the error type's `Display` implementation.
#[verifier::external_body]
pub(crate) fn display_alternate<E: std::fmt::Display>(error: &E) -> String {
    format!("{error:#}")
}

/// The log line for `operation`, `code` and `incident_id`, ending with the complete
/// error chain of `error`.
pub fn format_log_record<E: std::fmt::Display>(operation: &str, code: &str, incident_id: &str, error: E) -> (r:
    String)
    ensures
        exists|text: Seq<char>| r@ == log_record_text(operation@, code@, incident_id@, text),
{
    let text = display_alternate(&error);
    log_record(operation, code, incident_id, text.as_str())
}

/// Reports a failure in background work: a fresh incident id, and the log line that
/// records it under the code `InternalUnexpected` with the error's complete chain.
pub fn report_background_error<E: std::fmt::Display>(
    ids: &mut IncidentIds,
    operation: &str,
    error: E,
) -> (r: (String, String))
    ensures
        is_next_id(r.0@, *old(ids)),
        issued_one(*old(ids), *final(ids)),
        exists|text: Seq<char>| r.1@ == log_record_text(operation@, "InternalUnexpected"@, r.0@, text),
{
    let incident_id = next_incident_id(ids);
    let record = format_log_record(operation, "InternalUnexpected", incident_id.as_str(), error);
    (incident_id, record)
}

impl CommandError {
    /// An error for an anticipated failure, such as invalid input.
    pub fn expected<E: std::fmt::Display>(
        ids: &mut IncidentIds,
        operation: &str,
        code: ErrorCode,
        message: &str,
        retryable: bool,
        error: E,
    ) -> (r: CommandError)
        ensures
            r.code == code,
            r.message@ == message@,
            r.retryable == retryable,
            is_next_id(r.incident_id@, *old(ids)),
            issued_one(*old(ids), *final(ids)),
    {
        CommandError::new(ids, operation, code, message, retryable, error, false)
    }

    /// An error for a failure that indicates a fault.
    pub fn unexpected<E: std::fmt::Display>(
        ids: &mut IncidentIds,
        operation: &str,
        code: ErrorCode,
        message: &str,
        retryable: bool,
        error: E,
    ) -> (r: CommandError)
        ensures
            r.code == code,
            r.message@ == message@,
            r.retryable == retryable,
            is_next_id(r.incident_id@, *old(ids)),
            issued_one(*old(ids), *final(ids)),
    {
        CommandError::new(ids, operation, code, message, retryable, error, true)
    }

    /// An error under a fresh incident id. `operation` and `error` describe the
    /// failure for the log; `severe` tells faults from anticipated failures there.
    pub fn new<E: std::fmt::Display>(
        ids: &mut IncidentIds,
        operation: &str,
        code: ErrorCode,
        message: &str,
        retryable: bool,
        error: E,
        severe: bool,
    ) -> (r: CommandError)
        ensures
            r.code == code,
            r.message@ == message@,
            r.retryable == retryable,
            is_next_id(r.incident_id@, *old(ids)),
            issued_one(*old(ids), *final(ids)),
    {
        let _ = (operation, error, severe);
        CommandError {
            code,
            message: crate::text::string_of(message),
            retryable,
            incident_id: next_incident_id(ids),
        }
    }
}

/// `CommandError::expected` or `CommandError::unexpected`, as `expected` says.
pub fn command_error<E: std::fmt::Display>(
    ids: &mut IncidentIds,
    operation: &str,
    code: ErrorCode,
    message: &str,
    retryable: bool,
    error: E,
    expected: bool,
) -> (r: CommandError)
    ensures
        r.code == code,
        r.message@ == message@,
        r.retryable == retryable,
        is_next_id(r.incident_id@, *old(ids)),
        issued_one(*old(ids), *final(ids)),
{
    if expected {
        CommandError::expected(ids, operation, code, message, retryable, error)
    } else {
        CommandError::unexpected(ids, operation, code, message, retryable, error)
    }
}

/// The kind of an I/O failure, as far as the classification distinguishes them.
#[derive(Debug, Clone, Copy, PartialEq, Eq, Structural)]
pub enum IoFailure {
    PermissionDenied,
    TimedOut,
    Interrupted,
    WouldBlock,
    Other,
}

/// The follow-up step that failed after a successful Quick Access mutation.
#[derive(Debug, Clone, Copy, PartialEq, Eq, Structural)]
pub enum PostMutationStep {
    DeleteRecentFilesBackingData,
    RefreshExplorer,
    Other,
}

/// What the error classification reads of a Quick Access failure.
#[derive(Debug, Clone, Copy, PartialEq, Eq, Structural)]
pub enum WincentErrorKind {
    InvalidPath,
    InvalidArgument,
    UnsupportedOperation,
    UnknownQuickAccessType,
    AlreadyExists,
    NotInQuickAccess,
    Timeout,
    PowerShellExecution { access_denied: bool, execution_policy: bool, timeout: bool, transient: bool },
    Io(IoFailure),
    PartialEmpty,
    DestListParse,
    DestListUnsupportedVersion,
    ComApartmentMismatch,
    WindowsApi,
    Utf8,
    ArrayConversion,
    ScriptFailed,
    UnknownScriptMethod,
    MissingParameter,
    ScriptStrategyNotFound,
    PostMutationFailure { step: PostMutationStep },
    Other,
}

/// How a Quick Access failure is reported: code, message, whether it is retryable,
/// and whether it is an anticipated failure.
pub open spec fn spec_classify_wincent(kind: WincentErrorKind) -> (ErrorCode, Seq<char>, bool, bool) {
    match kind {
        WincentErrorKind::InvalidPath | WincentErrorKind::InvalidArgument => (
            ErrorCode::ValidationInvalidArgument,
            "The Quick Access request is invalid."@,
            false,
            true,
        ),
        WincentErrorKind::UnsupportedOperation | WincentErrorKind::UnknownQuickAccessType => (
            ErrorCode::ValidationInvalidArgument,
            "The requested Quick Access operation is not supported."@,
            false,
            true,
        ),
        WincentErrorKind::AlreadyExists => (
            ErrorCode::QuickAccessAlreadyExists,
            "The item is already present in Quick Access."@,
            false,
            true,
        ),
        WincentErrorKind::NotInQuickAccess => (
            ErrorCode::ResourceNotFound,
            "The item is not present in Quick Access."@,
            false,
            true,
        ),
        WincentErrorKind::Timeout => (
            ErrorCode::QuickAccessTimeout,
            "The Quick Access operation timed out."@,
            true,
            true,
        ),
        WincentErrorKind::PowerShellExecution { access_denied, execution_policy, timeout, transient } => {
            if access_denied || execution_policy {
                (
                    ErrorCode::QuickAccessPermissionDenied,
                    "Windows or PowerShell permissions blocked the Quick Access operation."@,
                    false,
                    true,
                )
            } else if timeout || transient {
                (
                    ErrorCode::QuickAccessTimeout,
                    "The Quick Access operation timed out or was temporarily unavailable."@,
                    true,
                    true,
                )
            } else {
                (
                    ErrorCode::SystemOperationFailed,
                    "The PowerShell operation could not be completed."@,
                    false,
                    false,
                )
            }
        },
        WincentErrorKind::Io(io) => match io {
            IoFailure::PermissionDenied => (
                ErrorCode::QuickAccessPermissionDenied,
                "Windows permissions blocked the Quick Access operation."@,
                false,
                true,
            ),
            IoFailure::TimedOut => (
                ErrorCode::QuickAccessTimeout,
                "The Quick Access operation timed out."@,
                true,
                true,
            ),
            IoFailure::Interrupted | IoFailure::WouldBlock => (
                ErrorCode::SystemOperationFailed,
                "The Windows operation was temporarily unavailable."@,
                true,
                true,
            ),
            IoFailure::Other => (
                ErrorCode::SystemOperationFailed,
                "The Windows operation could not be completed."@,
                false,
                false,
            ),
        },
        WincentErrorKind::PartialEmpty => (
            ErrorCode::QuickAccessPartialFailure,
            "The Quick Access cleanup partially completed."@,
            false,
            true,
        ),
        WincentErrorKind::DestListParse | WincentErrorKind::DestListUnsupportedVersion => (
            ErrorCode::QuickAccessMetadataUnavailable,
            "Quick Access metadata is unavailable or unsupported."@,
            false,
            true,
        ),
        WincentErrorKind::ComApartmentMismatch => (
            ErrorCode::SystemOperationFailed,
            "The Windows COM operation could not be started."@,
            false,
            false,
        ),
        WincentErrorKind::WindowsApi | WincentErrorKind::Utf8 | WincentErrorKind::ArrayConversion => (
            ErrorCode::SystemOperationFailed,
            "The Windows operation could not be completed."@,
            false,
            false,
        ),
        WincentErrorKind::ScriptFailed => (
            ErrorCode::SystemOperationFailed,
            "The Windows script operation could not be completed."@,
            false,
            false,
        ),
        WincentErrorKind::UnknownScriptMethod | WincentErrorKind::MissingParameter
        | WincentErrorKind::ScriptStrategyNotFound => (
            ErrorCode::InternalUnexpected,
            "An unexpected application error occurred."@,
            false,
            false,
        ),
        WincentErrorKind::PostMutationFailure { .. } => (
            ErrorCode::QuickAccessOperationFailed,
            "The Quick Access operation completed with a follow-up failure."@,
            false,
            true,
        ),
        WincentErrorKind::Other => (
            ErrorCode::QuickAccessOperationFailed,
            "The Quick Access operation could not be completed."@,
            false,
            false,
        ),
    }
}

/// Classifies a Quick Access failure into code, message, retryability and whether
/// it was anticipated.
pub fn classify_wincent_error(error: &WincentErrorKind) -> (r: (ErrorCode, &'static str, bool, bool))
    ensures
        (r.0, r.1@, r.2, r.3) == spec_classify_wincent(*error),
{
    match error {
        WincentErrorKind::InvalidPath | WincentErrorKind::InvalidArgument => (
            ErrorCode::ValidationInvalidArgument,
            "The Quick Access request is invalid.",
            false,
            true,
        ),
        WincentErrorKind::UnsupportedOperation | WincentErrorKind::UnknownQuickAccessType => (
            ErrorCode::ValidationInvalidArgument,
            "The requested Quick Access operation is not supported.",
            false,
            true,
        ),
        WincentErrorKind::AlreadyExists => (
            ErrorCode::QuickAccessAlreadyExists,
            "The item is already present in Quick Access.",
            false,
            true,
        ),
        WincentErrorKind::NotInQuickAccess => (
            ErrorCode::ResourceNotFound,
            "The item is not present in Quick Access.",
            false,
            true,
        ),
        WincentErrorKind::Timeout => (
            ErrorCode::QuickAccessTimeout,
            "The Quick Access operation timed out.",
            true,
            true,
        ),
        WincentErrorKind::PowerShellExecution { access_denied, execution_policy, timeout, transient } => {
            if *access_denied || *execution_policy {
                (
                    ErrorCode::QuickAccessPermissionDenied,
                    "Windows or PowerShell permissions blocked the Quick Access operation.",
                    false,
                    true,
                )
            } else if *timeout || *transient {
                (
                    ErrorCode::QuickAccessTimeout,
                    "The Quick Access operation timed out or was temporarily unavailable.",
                    true,
                    true,
                )
            } else {
                (
                    ErrorCode::SystemOperationFailed,
                    "The PowerShell operation could not be completed.",
                    false,
                    false,
                )
            }
        },
        WincentErrorKind::Io(io) => match io {
            IoFailure::PermissionDenied => (
                ErrorCode::QuickAccessPermissionDenied,
                "Windows permissions blocked the Quick Access operation.",
                false,
                true,
            ),
            IoFailure::TimedOut => (
                ErrorCode::QuickAccessTimeout,
                "The Quick Access operation timed out.",
                true,
                true,
            ),
            IoFailure::Interrupted | IoFailure::WouldBlock => (
                ErrorCode::SystemOperationFailed,
                "The Windows operation was temporarily unavailable.",
                true,
                true,
            ),
            IoFailure::Other => (
                ErrorCode::SystemOperationFailed,
                "The Windows operation could not be completed.",
                false,
                false,
            ),
        },
        WincentErrorKind::PartialEmpty => (
            ErrorCode::QuickAccessPartialFailure,
            "The Quick Access cleanup partially completed.",
            false,
            true,
        ),
        WincentErrorKind::DestListParse | WincentErrorKind::DestListUnsupportedVersion => (
            ErrorCode::QuickAccessMetadataUnavailable,
            "Quick Access metadata is unavailable or unsupported.",
            false,
            true,
        ),
        WincentErrorKind::ComApartmentMismatch => (
            ErrorCode::SystemOperationFailed,
            "The Windows COM operation could not be started.",
            false,
            false,
        ),
        WincentErrorKind::WindowsApi | WincentErrorKind::Utf8 | WincentErrorKind::ArrayConversion => (
            ErrorCode::SystemOperationFailed,
            "The Windows operation could not be completed.",
            false,
            false,
        ),
        WincentErrorKind::ScriptFailed => (
            ErrorCode::SystemOperationFailed,
            "The Windows script operation could not be completed.",
            false,
            false,
        ),
        WincentErrorKind::UnknownScriptMethod | WincentErrorKind::MissingParameter
        | WincentErrorKind::ScriptStrategyNotFound => (
            ErrorCode::InternalUnexpected,
            "An unexpected application error occurred.",
            false,
            false,
        ),
        WincentErrorKind::PostMutationFailure { .. } => (
            ErrorCode::QuickAccessOperationFailed,
            "The Quick Access operation completed with a follow-up failure.",
            false,
            true,
        ),
        WincentErrorKind::Other => (
            ErrorCode::QuickAccessOperationFailed,
            "The Quick Access operation could not be completed.",
            false,
            false,
        ),
    }
}

/// The command error for a failure whose chain holds the Quick Access failure
/// `kind`, if it holds one: classified when it does, and otherwise an unexpected
/// `QuickAccessOperationFailed`.
pub fn wincent_command_error<E: std::fmt::Display>(
    ids: &mut IncidentIds,
    operation: &str,
    kind: Option<WincentErrorKind>,
    error: E,
) -> (r: CommandError)
    ensures
        match kind {
            Some(k) => {
                let c = spec_classify_wincent(k);
                r.code == c.0 && r.message@ == c.1 && r.retryable == c.2
            },
            None => r.code == ErrorCode::QuickAccessOperationFailed && r.message@
                == "The Quick Access operation could not be completed."@ && !r.retryable,
        },
        is_next_id(r.incident_id@, *old(ids)),
        issued_one(*old(ids), *final(ids)),
{
    match kind {
        Some(k) => {
            let (code, message, retryable, expected) = classify_wincent_error(&k);
            command_error(ids, operation, code, message, retryable, error, expected)
        },
        None => CommandError::unexpected(
            ids,
            operation,
            ErrorCode::QuickAccessOperationFailed,
            "The Quick Access operation could not be completed.",
            false,
            error,
        ),
    }
}

/// The command error for the Quick Access failure `kind`.
pub fn wincent_command_error_ref(ids: &mut IncidentIds, operation: &str, kind: &WincentErrorKind) -> (r:
    CommandError)
    ensures
        ({
            let c = spec_classify_wincent(*kind);
            r.code == c.0 && r.message@ == c.1 && r.retryable == c.2
        }),
        is_next_id(r.incident_id@, *old(ids)),
        issued_one(*old(ids), *final(ids)),
{
    let (code, message, retryable, expected) = classify_wincent_error(kind);
    command_error(ids, operation, code, message, retryable, operation, expected)
}

pub open spec fn spec_step_name(step: PostMutationStep) -> Seq<char> {
    match step {
        PostMutationStep::DeleteRecentFilesBackingData => "delete_recent_files_backing_data"@,
        PostMutationStep::RefreshExplorer => "refresh_explorer"@,
        PostMutationStep::Other => "unknown"@,
    }
}

/// A warning when `kind` reports that the mutation itself succeeded and only a
/// follow-up step failed; `None` for every other failure.
pub fn wincent_post_mutation_warning(ids: &mut IncidentIds, operation: &str, kind: &WincentErrorKind) -> (r:
    Option<CommandWarning>)
    ensures
        match *kind {
            WincentErrorKind::PostMutationFailure { step } => r matches Some(w) && w.code@
                == "quick_access_post_mutation_failed"@ && w.step@ == spec_step_name(step)
                && w.message@ == "The Quick Access change completed, but a follow-up step failed."@,
            _ => r is None,
        },
        r matches Some(w) ==> is_next_id(w.incident_id@, *old(ids)) && issued_one(*old(ids), *final(ids)),
        r is None ==> *final(ids) == *old(ids),
{
    let _ = operation;
    let step = match kind {
        WincentErrorKind::PostMutationFailure { step } => *step,
        _ => {
            return None;
        },
    };
    let step_name = match step {
        PostMutationStep::DeleteRecentFilesBackingData => "delete_recent_files_backing_data",
        PostMutationStep::RefreshExplorer => "refresh_explorer",
        PostMutationStep::Other => "unknown",
    };
    Some(
        CommandWarning {
            code: "quick_access_post_mutation_failed",
            step: step_name,
            message: crate::text::string_of(
                "The Quick Access change completed, but a follow-up step failed.",
            ),
            incident_id: next_incident_id(ids),
        },
    )
}

/// Failures of the command guards.
#[derive(Debug, Clone, PartialEq, Eq)]
pub enum CommandGuardError {
    PrivacyWriteBlocked,
    StateUnavailable(String),
}

impl CommandGuardError {
    /// The description of the failure.
    pub fn message(&self) -> (r: String)
        ensures
            r@ == match self {
                CommandGuardError::PrivacyWriteBlocked => "privacy mode is active"@,
                CommandGuardError::StateUnavailable(detail) => "application state is unavailable: "@
                    + detail@,
            },
    {
        let mut out = String::new();
        match self {
            CommandGuardError::PrivacyWriteBlocked => push_str(&mut out, "privacy mode is active"),
            CommandGuardError::StateUnavailable(detail) => {
                push_str(&mut out, "application state is unavailable: ");
                push_str(&mut out, detail.as_str());
            },
        }
        out
    }
}

/// Failures of argument validation.
#[derive(Debug, Clone, PartialEq, Eq)]
pub enum ValidationError {
    InvalidArgument(String),
    NotFound(String),
}

impl ValidationError {
    /// The description of the failure.
    pub fn message(&self) -> (r: String)
        ensures
            r@ == match self {
                ValidationError::InvalidArgument(detail) => detail@,
                ValidationError::NotFound(detail) => "resource does not exist: "@ + detail@,
            },
    {
        let mut out = String::new();
        match self {
            ValidationError::InvalidArgument(detail) => push_str(&mut out, detail.as_str()),
            ValidationError::NotFound(detail) => {
                push_str(&mut out, "resource does not exist: ");
                push_str(&mut out, detail.as_str());
            },
        }
        out
    }
}

} // verus!
