//! Cleanup runs: what each cleanup requested and achieved, and its final status.
use vstd::prelude::*;

use crate::history::{csv_record, csv_record_bytes, string_views, CleanSource, HistoryError};
use crate::text::{chars_eq_str, chars_of, push_signed_decimal, signed_decimal, string_of};

verus! {

/// The largest page of runs that a query may ask for.
pub const MAX_PAGE_SIZE: u32 = 100;

/// What started a cleanup run.
#[derive(Debug, Clone, Copy, PartialEq, Eq, Structural)]
pub enum CleanupAction {
    RemoveSelected,
    Empty,
    SmartClean,
    AutoClean,
}

/// Who or what triggered a cleanup run.
#[derive(Debug, Clone, Copy, PartialEq, Eq, Structural)]
pub enum CleanupTrigger {
    Manual,
    Monitor,
    Scheduled,
}

/// The state of a cleanup run.
#[derive(Debug, Clone, Copy, PartialEq, Eq, Structural)]
pub enum CleanupRunStatus {
    Running,
    Success,
    Partial,
    Failed,
    Noop,
    Interrupted,
}

impl CleanupAction {
    pub open spec fn spec_name(self) -> Seq<char> {
        match self {
            CleanupAction::RemoveSelected => "remove_selected"@,
            CleanupAction::Empty => "empty"@,
            CleanupAction::SmartClean => "smart_clean"@,
            CleanupAction::AutoClean => "auto_clean"@,
        }
    }

    /// The stored name of the action.
    pub fn as_str(self) -> (r: &'static str)
        ensures
            r@ == self.spec_name(),
    {
        match self {
            CleanupAction::RemoveSelected => "remove_selected",
            CleanupAction::Empty => "empty",
            CleanupAction::SmartClean => "smart_clean",
            CleanupAction::AutoClean => "auto_clean",
        }
    }
}

impl CleanupTrigger {
    pub open spec fn spec_name(self) -> Seq<char> {
        match self {
            CleanupTrigger::Manual => "manual"@,
            CleanupTrigger::Monitor => "monitor"@,
            CleanupTrigger::Scheduled => "scheduled"@,
        }
    }

    /// The stored name of the trigger.
    pub fn as_str(self) -> (r: &'static str)
        ensures
            r@ == self.spec_name(),
    {
        match self {
            CleanupTrigger::Manual => "manual",
            CleanupTrigger::Monitor => "monitor",
            CleanupTrigger::Scheduled => "scheduled",
        }
    }
}

impl CleanupRunStatus {
    pub open spec fn spec_name(self) -> Seq<char> {
        match self {
            CleanupRunStatus::Running => "running"@,
            CleanupRunStatus::Success => "success"@,
            CleanupRunStatus::Partial => "partial"@,
            CleanupRunStatus::Failed => "failed"@,
            CleanupRunStatus::Noop => "noop"@,
            CleanupRunStatus::Interrupted => "interrupted"@,
        }
    }

    /// The stored name of the status.
    pub fn as_str(self) -> (r: &'static str)
        ensures
            r@ == self.spec_name(),
    {
        match self {
            CleanupRunStatus::Running => "running",
            CleanupRunStatus::Success => "success",
            CleanupRunStatus::Partial => "partial",
            CleanupRunStatus::Failed => "failed",
            CleanupRunStatus::Noop => "noop",
            CleanupRunStatus::Interrupted => "interrupted",
        }
    }

    /// The status stored under `value`, if it is one of the six names.
    pub fn from_str(value: &str) -> (r: Option<CleanupRunStatus>)
        ensures
            r matches Some(s) ==> s.spec_name() == value@,
            r is None ==> forall|s: CleanupRunStatus| s.spec_name() != value@,
    {
        let chars = chars_of(value);
        let v = chars.as_slice();
        if chars_eq_str(v, "running") {
            Some(CleanupRunStatus::Running)
        } else if chars_eq_str(v, "success") {
            Some(CleanupRunStatus::Success)
        } else if chars_eq_str(v, "partial") {
            Some(CleanupRunStatus::Partial)
        } else if chars_eq_str(v, "failed") {
            Some(CleanupRunStatus::Failed)
        } else if chars_eq_str(v, "noop") {
            Some(CleanupRunStatus::Noop)
        } else if chars_eq_str(v, "interrupted") {
            Some(CleanupRunStatus::Interrupted)
        } else {
            proof {
                assert forall|s: CleanupRunStatus| s.spec_name() != value@ by {
                    match s {
                        CleanupRunStatus::Running => {},
                        CleanupRunStatus::Success => {},
                        CleanupRunStatus::Partial => {},
                        CleanupRunStatus::Failed => {},
                        CleanupRunStatus::Noop => {},
                        CleanupRunStatus::Interrupted => {},
                    }
                }
            }
            None
        }
    }
}

/// A run about to start.
#[derive(Debug, Clone, Copy)]
pub struct NewCleanupRun<'a> {
    pub action: CleanupAction,
    pub trigger: CleanupTrigger,
    pub qa_type: &'a str,
}

/// What a finished run requested and achieved.
#[derive(Debug, Clone, PartialEq, Eq)]
pub struct RunCompletion {
    pub requested: usize,
    pub succeeded: usize,
    pub failed: usize,
    pub protected: usize,
    pub warnings: usize,
    pub history_errors: usize,
    pub section_errors: usize,
    pub incident_id: Option<String>,
}

impl Default for RunCompletion {
    fn default() -> (r: RunCompletion)
        ensures
            r.requested == 0 && r.succeeded == 0 && r.failed == 0 && r.protected == 0 && r.warnings == 0
                && r.history_errors == 0 && r.section_errors == 0 && r.incident_id is None,
    {
        RunCompletion {
            requested: 0,
            succeeded: 0,
            failed: 0,
            protected: 0,
            warnings: 0,
            history_errors: 0,
            section_errors: 0,
            incident_id: None,
        }
    }
}

/// The status of a finished run: `Noop` when nothing happened at all, `Failed` when
/// nothing succeeded and something failed, `Partial` when something succeeded and
/// something else went wrong, and `Success` otherwise.
pub open spec fn spec_run_status(c: RunCompletion) -> CleanupRunStatus {
    if c.succeeded == 0 && c.failed == 0 && c.section_errors == 0 && c.warnings == 0 && c.history_errors
        == 0 {
        CleanupRunStatus::Noop
    } else if c.succeeded == 0 && (c.failed > 0 || c.section_errors > 0 || c.history_errors > 0) {
        CleanupRunStatus::Failed
    } else if c.failed > 0 || c.warnings > 0 || c.history_errors > 0 || c.section_errors > 0 {
        CleanupRunStatus::Partial
    } else {
        CleanupRunStatus::Success
    }
}

impl RunCompletion {
    /// The status under which the run is recorded.
    pub fn status(&self) -> (r: CleanupRunStatus)
        ensures
            r == spec_run_status(*self),
    {
        if self.succeeded == 0 && self.failed == 0 && self.section_errors == 0 && self.warnings == 0
            && self.history_errors == 0 {
            CleanupRunStatus::Noop
        } else if self.succeeded == 0 && (self.failed > 0 || self.section_errors > 0
            || self.history_errors > 0) {
            CleanupRunStatus::Failed
        } else if self.failed > 0 || self.warnings > 0 || self.history_errors > 0
            || self.section_errors > 0 {
            CleanupRunStatus::Partial
        } else {
            CleanupRunStatus::Success
        }
    }
}

/// A finished run is never recorded as running or interrupted; it succeeds
/// exactly when items were removed and nothing went wrong; it is a no-op exactly
/// when nothing was removed, failed or warned about; and protected items alone
/// never change its status.
pub proof fn law_run_status(c: RunCompletion)
    ensures
        spec_run_status(c) != CleanupRunStatus::Running,
        spec_run_status(c) != CleanupRunStatus::Interrupted,
        (spec_run_status(c) == CleanupRunStatus::Success) <==> (c.succeeded > 0 && c.failed == 0
            && c.warnings == 0 && c.history_errors == 0 && c.section_errors == 0),
        (spec_run_status(c) == CleanupRunStatus::Noop) <==> (c.succeeded == 0 && c.failed == 0
            && c.warnings == 0 && c.history_errors == 0 && c.section_errors == 0),
        spec_run_status(RunCompletion { protected: 0, requested: 0, ..c }) == spec_run_status(c),
{
}

/// A stored run.
#[derive(Debug, Clone, PartialEq, Eq)]
pub struct CleanupRun {
    pub id: i64,
    pub action: String,
    pub trigger: String,
    pub qa_type: String,
    pub status: CleanupRunStatus,
    pub requested_count: i64,
    pub succeeded_count: i64,
    pub failed_count: i64,
    pub protected_count: i64,
    pub warning_count: i64,
    pub history_error_count: i64,
    pub section_error_count: i64,
    pub incident_id: Option<String>,
    pub started_at: String,
    pub completed_at: Option<String>,
}

/// Which runs a listing or export covers.
#[derive(Debug, Clone, PartialEq, Eq)]
pub struct CleanupRunFilter {
    pub action: Option<CleanupAction>,
    pub trigger: Option<CleanupTrigger>,
    pub status: Option<CleanupRunStatus>,
    pub date_range: Option<String>,
}

impl Default for CleanupRunFilter {
    fn default() -> (r: CleanupRunFilter)
        ensures
            r.action is None && r.trigger is None && r.status is None && r.date_range is None,
    {
        CleanupRunFilter { action: None, trigger: None, status: None, date_range: None }
    }
}

/// A page of runs to list.
#[derive(Debug, Clone, PartialEq, Eq)]
pub struct CleanupRunQuery {
    pub page: u32,
    pub page_size: u32,
    pub filter: CleanupRunFilter,
}

/// One page of runs, newest first.
#[derive(Debug, Clone, PartialEq, Eq)]
pub struct CleanupRunPage {
    pub runs: Vec<CleanupRun>,
    pub total: u64,
    pub page: u32,
    pub page_size: u32,
}

/// Totals kept for the lifetime of the database, independent of history retention.
#[derive(Debug, Clone, PartialEq, Eq)]
pub struct LifetimeTotals {
    pub cleaned_total: u64,
    pub cleaned_files: u64,
    pub cleaned_folders: u64,
    pub cleanup_runs_total: u64,
    pub successful_runs: u64,
    pub partial_runs: u64,
    pub failed_runs: u64,
    pub noop_runs: u64,
    pub interrupted_runs: u64,
    pub tracking_started_at: String,
}

/// The SQLite date modifier for a date range name: `7d` covers today and the six
/// days before, `30d` today and the 29 days before.
pub open spec fn spec_date_modifier(range: Seq<char>) -> Option<Seq<char>> {
    if range == "7d"@ {
        Some("-6 days"@)
    } else if range == "30d"@ {
        Some("-29 days"@)
    } else {
        None
    }
}

/// Validates an optional date range name, giving its date modifier.
pub fn validate_date_range(value: Option<&str>) -> (r: Result<Option<&'static str>, HistoryError>)
    ensures
        match value {
            None => r == Ok::<Option<&'static str>, HistoryError>(None),
            Some(v) => match spec_date_modifier(v@) {
                Some(m) => r matches Ok(Some(x)) && x@ == m,
                None => r matches Err(HistoryError::DateRange(t)) && t@ == v@,
            },
        },
{
    match value {
        None => Ok(None),
        Some(v) => {
            let chars = chars_of(v);
            if chars_eq_str(chars.as_slice(), "7d") {
                Ok(Some("-6 days"))
            } else if chars_eq_str(chars.as_slice(), "30d") {
                Ok(Some("-29 days"))
            } else {
                Err(HistoryError::DateRange(string_of(v)))
            }
        },
    }
}

/// A count as a stored integer; counts beyond `i64::MAX` cannot be stored.
pub fn as_i64(value: usize) -> (r: Result<i64, HistoryError>)
    ensures
        value <= i64::MAX ==> r == Ok::<i64, HistoryError>(value as i64),
        value > i64::MAX ==> r == Err::<i64, HistoryError>(HistoryError::CountTooLarge),
{
    if (value as u128) <= (i64::MAX as u128) {
        Ok(value as i64)
    } else {
        Err(HistoryError::CountTooLarge)
    }
}

/// A stored total, which must not be negative.
pub fn nonnegative(value: i64, label: &str) -> (r: Result<u64, HistoryError>)
    ensures
        value >= 0 ==> r == Ok::<u64, HistoryError>(value as u64),
        value < 0 ==> (r matches Err(HistoryError::Negative(l)) && l@ == label@),
{
    if value >= 0 {
        Ok(value as u64)
    } else {
        Err(HistoryError::Negative(string_of(label)))
    }
}

/// The lifetime-total column that counts runs finishing with `status`; a running
/// run is counted by none.
pub fn run_total_column(status: CleanupRunStatus) -> (r: Option<&'static str>)
    ensures
        match status {
            CleanupRunStatus::Success => r matches Some(c) && c@ == "successful_runs"@,
            CleanupRunStatus::Partial => r matches Some(c) && c@ == "partial_runs"@,
            CleanupRunStatus::Failed => r matches Some(c) && c@ == "failed_runs"@,
            CleanupRunStatus::Noop => r matches Some(c) && c@ == "noop_runs"@,
            CleanupRunStatus::Interrupted => r matches Some(c) && c@ == "interrupted_runs"@,
            CleanupRunStatus::Running => r is None,
        },
{
    match status {
        CleanupRunStatus::Success => Some("successful_runs"),
        CleanupRunStatus::Partial => Some("partial_runs"),
        CleanupRunStatus::Failed => Some("failed_runs"),
        CleanupRunStatus::Noop => Some("noop_runs"),
        CleanupRunStatus::Interrupted => Some("interrupted_runs"),
        CleanupRunStatus::Running => None,
    }
}

/// The row offset and date modifier of a valid run query.
#[derive(Debug, Clone, Copy, PartialEq, Eq)]
pub struct ValidatedRunQuery {
    pub offset: i64,
    pub limit: i64,
    pub date_modifier: Option<&'static str>,
}

/// Validates a run query: pages start at 1 and hold 1 to 100 runs.
pub fn validate_run_query(query: &CleanupRunQuery) -> (r: Result<ValidatedRunQuery, HistoryError>)
    ensures
        query.page == 0 ==> r == Err::<ValidatedRunQuery, HistoryError>(HistoryError::Page),
        query.page != 0 && !(1 <= query.page_size <= MAX_PAGE_SIZE) ==> r == Err::<
            ValidatedRunQuery,
            HistoryError,
        >(HistoryError::PageSize),
        r matches Ok(v) ==> v.offset == (query.page - 1) * query.page_size && v.limit
            == query.page_size,
        query.page != 0 && 1 <= query.page_size <= MAX_PAGE_SIZE ==> match query.filter.date_range {
            None => r matches Ok(v) && v.date_modifier is None,
            Some(d) => match spec_date_modifier(d@) {
                Some(m) => r matches Ok(v) && v.date_modifier matches Some(x) && x@ == m,
                None => r matches Err(HistoryError::DateRange(t)) && t@ == d@,
            },
        },
{
    if query.page == 0 {
        return Err(HistoryError::Page);
    }
    if !(1 <= query.page_size && query.page_size <= MAX_PAGE_SIZE) {
        return Err(HistoryError::PageSize);
    }
    let date_modifier = match &query.filter.date_range {
        None => validate_date_range(None)?,
        Some(d) => validate_date_range(Some(d.as_str()))?,
    };
    let page = query.page as i64 - 1;
    let size = query.page_size as i64;
    assert(0 <= page * size <= 0xffff_ffff * 100) by (nonlinear_arith)
        requires
            0 <= page <= 0xffff_ffff,
            0 <= size <= 100,
    ;
    let offset: i64 = page * size;
    Ok(ValidatedRunQuery { offset, limit: query.page_size as i64, date_modifier })
}

/// A run's completion as it is stored: its status and its counts as stored integers.
#[derive(Debug, Clone, PartialEq, Eq)]
pub struct StoredCompletion {
    pub status: CleanupRunStatus,
    pub requested: i64,
    pub succeeded: i64,
    pub failed: i64,
    pub protected: i64,
    pub warnings: i64,
    pub history_errors: i64,
    pub section_errors: i64,
    pub incident_id: Option<String>,
}

pub open spec fn completion_counts(c: RunCompletion) -> Seq<usize> {
    seq![c.requested, c.succeeded, c.failed, c.protected, c.warnings, c.history_errors, c.section_errors]
}

fn stored_count(value: usize) -> (r: Result<i64, HistoryError>)
    ensures
        value <= i64::MAX ==> r == Ok::<i64, HistoryError>(value as i64),
        value > i64::MAX ==> r == Err::<i64, HistoryError>(HistoryError::CountTooLarge),
{
    as_i64(value)
}

/// The completion of a run as it is stored: its status, and its counts, each of which
/// must fit a stored integer.
pub fn stored_completion(c: &RunCompletion) -> (r: Result<StoredCompletion, HistoryError>)
    ensures
        (exists|i: int| 0 <= i < 7 && completion_counts(*c)[i] > i64::MAX) ==> r == Err::<
            StoredCompletion,
            HistoryError,
        >(HistoryError::CountTooLarge),
        (forall|i: int| 0 <= i < 7 ==> completion_counts(*c)[i] <= i64::MAX) ==> (r matches Ok(s) && s.status
            == spec_run_status(*c) && s.requested == c.requested && s.succeeded == c.succeeded && s.failed
            == c.failed && s.protected == c.protected && s.warnings == c.warnings && s.history_errors
            == c.history_errors && s.section_errors == c.section_errors && s.incident_id == c.incident_id),
{
    let ghost counts = completion_counts(*c);
    let requested = stored_count(c.requested);
    let succeeded = stored_count(c.succeeded);
    let failed = stored_count(c.failed);
    let protected = stored_count(c.protected);
    let warnings = stored_count(c.warnings);
    let history_errors = stored_count(c.history_errors);
    let section_errors = stored_count(c.section_errors);
    match (requested, succeeded, failed, protected, warnings, history_errors, section_errors) {
        (Ok(requested), Ok(succeeded), Ok(failed), Ok(protected), Ok(warnings), Ok(history_errors), Ok(
            section_errors,
        )) => {
            let status = c.status();
            Ok(
                StoredCompletion {
                    status,
                    requested,
                    succeeded,
                    failed,
                    protected,
                    warnings,
                    history_errors,
                    section_errors,
                    incident_id: c.incident_id.clone(),
                },
            )
        },
        _ => {
            assert(exists|i: int| 0 <= i < 7 && counts[i] > i64::MAX) by {
                if c.requested > i64::MAX {
                    assert(counts[0] > i64::MAX);
                } else if c.succeeded > i64::MAX {
                    assert(counts[1] > i64::MAX);
                } else if c.failed > i64::MAX {
                    assert(counts[2] > i64::MAX);
                } else if c.protected > i64::MAX {
                    assert(counts[3] > i64::MAX);
                } else if c.warnings > i64::MAX {
                    assert(counts[4] > i64::MAX);
                } else if c.history_errors > i64::MAX {
                    assert(counts[5] > i64::MAX);
                } else {
                    assert(counts[6] > i64::MAX);
                }
            }
            Err(HistoryError::CountTooLarge)
        },
    }
}

/// The labels of the lifetime totals, in their stored order.
pub open spec fn lifetime_labels() -> Seq<Seq<char>> {
    seq![
        "cleaned total"@,
        "cleaned file total"@,
        "cleaned folder total"@,
        "cleanup run total"@,
        "successful run total"@,
        "partial run total"@,
        "failed run total"@,
        "noop run total"@,
        "interrupted run total"@,
    ]
}

/// The position of the first negative value among the first `n`.
pub open spec fn first_negative(values: Seq<i64>, n: int) -> Option<int>
    decreases n,
{
    if n <= 0 {
        None
    } else {
        match first_negative(values, n - 1) {
            Some(i) => Some(i),
            None => if values[n - 1] < 0 {
                Some(n - 1)
            } else {
                None
            },
        }
    }
}

fn lifetime_label(i: usize) -> (r: &'static str)
    requires
        i < 9,
    ensures
        r@ == lifetime_labels()[i as int],
{
    if i == 0 {
        "cleaned total"
    } else if i == 1 {
        "cleaned file total"
    } else if i == 2 {
        "cleaned folder total"
    } else if i == 3 {
        "cleanup run total"
    } else if i == 4 {
        "successful run total"
    } else if i == 5 {
        "partial run total"
    } else if i == 6 {
        "failed run total"
    } else if i == 7 {
        "noop run total"
    } else {
        "interrupted run total"
    }
}

/// The lifetime totals from their stored values, in the order of the columns; no
/// value may be negative, and the first negative one is reported.
pub fn lifetime_totals_from(values: [i64; 9], tracking_started_at: String) -> (r: Result<LifetimeTotals, HistoryError>)
    ensures
        match first_negative(values@, 9) {
            Some(i) => r matches Err(HistoryError::Negative(l)) && l@ == lifetime_labels()[i],
            None => r matches Ok(t) && t.cleaned_total == values@[0] && t.cleaned_files == values@[1]
                && t.cleaned_folders == values@[2] && t.cleanup_runs_total == values@[3] && t.successful_runs
                == values@[4] && t.partial_runs == values@[5] && t.failed_runs == values@[6] && t.noop_runs
                == values@[7] && t.interrupted_runs == values@[8] && t.tracking_started_at
                == tracking_started_at,
        },
{
    let mut i: usize = 0;
    while i < 9
        invariant
            i <= 9,
            first_negative(values@, i as int) is None,
            forall|k: int| 0 <= k < i ==> values@[k] >= 0,
        decreases 9 - i,
    {
        if values[i] < 0 {
            assert(first_negative(values@, i + 1) == Some(i as int));
            proof {
                lemma_first_negative_stays(values@, i as int, i + 1, 9);
            }
            return Err(HistoryError::Negative(string_of(lifetime_label(i))));
        }
        i = i + 1;
    }
    Ok(
        LifetimeTotals {
            cleaned_total: values[0] as u64,
            cleaned_files: values[1] as u64,
            cleaned_folders: values[2] as u64,
            cleanup_runs_total: values[3] as u64,
            successful_runs: values[4] as u64,
            partial_runs: values[5] as u64,
            failed_runs: values[6] as u64,
            noop_runs: values[7] as u64,
            interrupted_runs: values[8] as u64,
            tracking_started_at,
        },
    )
}

proof fn lemma_first_negative_stays(values: Seq<i64>, i: int, m: int, n: int)
    requires
        0 <= i < m <= n,
        first_negative(values, m) == Some(i),
    ensures
        first_negative(values, n) == Some(i),
    decreases n - m,
{
    if n > m {
        lemma_first_negative_stays(values, i, m, n - 1);
    }
}

/// A page of runs from the stored rows and count, which may not be negative.
pub fn run_page(runs: Vec<CleanupRun>, total: i64, page: u32, page_size: u32) -> (r: Result<CleanupRunPage, HistoryError>)
    ensures
        total < 0 ==> (r matches Err(HistoryError::Negative(l)) && l@ == "cleanup run count"@),
        total >= 0 ==> (r matches Ok(p) && p.runs@ == runs@ && p.total == total && p.page == page && p.page_size
            == page_size),
{
    match nonnegative(total, "cleanup run count") {
        Ok(t) => Ok(CleanupRunPage { runs, total: t, page, page_size }),
        Err(e) => Err(e),
    }
}

/// The names of the columns of a CSV export of runs.
pub open spec fn run_csv_columns() -> Seq<Seq<char>> {
    seq![
        "id"@,
        "action"@,
        "trigger"@,
        "qa_type"@,
        "status"@,
        "requested_count"@,
        "succeeded_count"@,
        "failed_count"@,
        "protected_count"@,
        "warning_count"@,
        "history_error_count"@,
        "section_error_count"@,
        "incident_id"@,
        "started_at"@,
        "completed_at"@,
    ]
}

pub fn run_csv_header() -> (r: Vec<String>)
    ensures
        string_views(r@) == run_csv_columns(),
{
    let mut out: Vec<String> = Vec::new();
    out.push(string_of("id"));
    out.push(string_of("action"));
    out.push(string_of("trigger"));
    out.push(string_of("qa_type"));
    out.push(string_of("status"));
    out.push(string_of("requested_count"));
    out.push(string_of("succeeded_count"));
    out.push(string_of("failed_count"));
    out.push(string_of("protected_count"));
    out.push(string_of("warning_count"));
    out.push(string_of("history_error_count"));
    out.push(string_of("section_error_count"));
    out.push(string_of("incident_id"));
    out.push(string_of("started_at"));
    out.push(string_of("completed_at"));
    assert(string_views(out@) =~= run_csv_columns());
    out
}

pub open spec fn optional_text(v: Option<String>) -> Seq<char> {
    match v {
        Some(t) => t@,
        None => seq![],
    }
}

/// The CSV fields of a run, in the order of the columns.
pub open spec fn run_fields(r: CleanupRun) -> Seq<Seq<char>> {
    seq![
        signed_decimal(r.id as int),
        r.action@,
        r.trigger@,
        r.qa_type@,
        r.status.spec_name(),
        signed_decimal(r.requested_count as int),
        signed_decimal(r.succeeded_count as int),
        signed_decimal(r.failed_count as int),
        signed_decimal(r.protected_count as int),
        signed_decimal(r.warning_count as int),
        signed_decimal(r.history_error_count as int),
        signed_decimal(r.section_error_count as int),
        optional_text(r.incident_id),
        r.started_at@,
        optional_text(r.completed_at),
    ]
}

fn decimal(n: i64) -> (r: String)
    ensures
        r@ == signed_decimal(n as int),
{
    let mut out = String::new();
    push_signed_decimal(&mut out, n);
    assert(out@ =~= signed_decimal(n as int));
    out
}

fn text_field(v: &Option<String>) -> (r: String)
    ensures
        r@ == optional_text(*v),
{
    match v {
        Some(t) => string_of(t.as_str()),
        None => String::new(),
    }
}

pub fn run_csv_fields(run: &CleanupRun) -> (r: Vec<String>)
    ensures
        string_views(r@) == run_fields(*run),
{
    let mut out: Vec<String> = Vec::new();
    out.push(decimal(run.id));
    out.push(string_of(run.action.as_str()));
    out.push(string_of(run.trigger.as_str()));
    out.push(string_of(run.qa_type.as_str()));
    out.push(string_of(run.status.as_str()));
    out.push(decimal(run.requested_count));
    out.push(decimal(run.succeeded_count));
    out.push(decimal(run.failed_count));
    out.push(decimal(run.protected_count));
    out.push(decimal(run.warning_count));
    out.push(decimal(run.history_error_count));
    out.push(decimal(run.section_error_count));
    out.push(text_field(&run.incident_id));
    out.push(string_of(run.started_at.as_str()));
    out.push(text_field(&run.completed_at));
    assert(string_views(out@) =~= run_fields(*run));
    out
}

/// The bytes of a CSV export of `runs`: the header record, then one record per run.
pub open spec fn csv_runs_bytes(runs: Seq<CleanupRun>) -> Seq<u8>
    decreases runs.len(),
{
    if runs.len() == 0 {
        csv_record_bytes(run_csv_columns())
    } else {
        csv_runs_bytes(runs.drop_last()) + csv_record_bytes(run_fields(runs.last()))
    }
}

/// The CSV export of `runs`. Writing into memory does not fail, so the result is
/// always `Some`.
pub fn csv_runs_export(runs: &[CleanupRun]) -> (r: Option<Vec<u8>>)
    ensures
        r matches Some(b) && b@ == csv_runs_bytes(runs@),
{
    let header = run_csv_header();
    let mut out: Vec<u8> = match csv_record(&header) {
        Some(b) => b,
        None => {
            return None;
        },
    };
    let mut i: usize = 0;
    while i < runs.len()
        invariant
            i <= runs@.len(),
            out@ == csv_runs_bytes(runs@.take(i as int)),
        decreases runs@.len() - i,
    {
        assert(runs@.take(i + 1).drop_last() == runs@.take(i as int));
        let fields = run_csv_fields(&runs[i]);
        let mut line = match csv_record(&fields) {
            Some(b) => b,
            None => {
                return None;
            },
        };
        out.append(&mut line);
        i = i + 1;
    }
    assert(runs@.take(runs@.len() as int) == runs@);
    Some(out)
}

/// The stored names of run statuses, and of cleanup sources, are distinct, so a stored
/// status or source reads back as itself.
pub proof fn law_stored_statuses_read_back(a: CleanupRunStatus, b: CleanupRunStatus, x: CleanSource, y: CleanSource)
    ensures
        a.spec_name() == b.spec_name() ==> a == b,
        x.spec_name() == y.spec_name() ==> x == y,
{
    reveal_strlit("running");
    reveal_strlit("success");
    reveal_strlit("partial");
    reveal_strlit("failed");
    reveal_strlit("noop");
    reveal_strlit("interrupted");
    reveal_strlit("manual");
    reveal_strlit("auto");
    if a.spec_name() == b.spec_name() && a != b {
        assert(a.spec_name().len() == b.spec_name().len());
        assert(a.spec_name()[0] == b.spec_name()[0]);
        assert(a.spec_name()[1] == b.spec_name()[1]);
    }
    if x.spec_name() == y.spec_name() {
        assert(x.spec_name().len() == y.spec_name().len());
    }
}

} // verus!
