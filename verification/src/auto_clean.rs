//! The automatic cleanup: when it may run, one run at a time, and how the results of
//! its two sections add up.
use vstd::prelude::*;

use std::sync::{Mutex, MutexGuard, TryLockError};

use crate::error::display_alternate;
use crate::history::CleanSource;
use crate::history_runs::{spec_run_status, CleanupRunStatus, RunCompletion};
use crate::privacy::PrivacyModeState;
use crate::quick_access::QaBatchResult;

verus! {

#[verifier::external_type_specification]
#[verifier::external_body]
#[verifier::reject_recursive_types(T)]
pub struct ExMutex<T: ?Sized>(Mutex<T>);

#[verifier::external_type_specification]
#[verifier::external_body]
#[verifier::reject_recursive_types(T)]
pub struct ExMutexGuard<'a, T: ?Sized + 'a>(MutexGuard<'a, T>);

/// Why an automatic cleanup was refused.
#[derive(Debug, Clone, Copy, PartialEq, Eq, Structural)]
pub enum AutoCleanError {
    AlreadyRunning,
    DatabaseUnavailable,
    PrivacyModeActive,
    StateUnavailable,
}

pub open spec fn auto_clean_error_text(e: AutoCleanError) -> Seq<char> {
    match e {
        AutoCleanError::AlreadyRunning => "Auto-clean is already running."@,
        AutoCleanError::DatabaseUnavailable => "Database is unavailable; auto-clean cannot run."@,
        AutoCleanError::PrivacyModeActive => "Privacy mode is active; auto-clean cannot run."@,
        AutoCleanError::StateUnavailable => "Auto-clean state is unavailable."@,
    }
}

impl AutoCleanError {
    /// The description of the refusal.
    pub fn message(&self) -> (r: &'static str)
        ensures
            r@ == auto_clean_error_text(*self),
    {
        match self {
            AutoCleanError::AlreadyRunning => "Auto-clean is already running.",
            AutoCleanError::DatabaseUnavailable => "Database is unavailable; auto-clean cannot run.",
            AutoCleanError::PrivacyModeActive => "Privacy mode is active; auto-clean cannot run.",
            AutoCleanError::StateUnavailable => "Auto-clean state is unavailable.",
        }
    }
}

/// Why a lock could not be taken at once.
#[derive(Debug, Clone, Copy, PartialEq, Eq, Structural)]
pub enum LockFailure {
    /// Another holder has it.
    WouldBlock,
    /// A holder panicked while holding it.
    Poisoned,
}

/// Calls `Mutex::try_lock`, telling its two failures apart. Whether the lock is free
/// depends on the other threads, so nothing is stated of the outcome.
#[verifier::external_body]
fn try_lock_unit<'a>(lock: &'a Mutex<()>) -> Result<MutexGuard<'a, ()>, LockFailure> {
    match lock.try_lock() {
        Ok(guard) => Ok(guard),
        Err(TryLockError::WouldBlock) => Err(LockFailure::WouldBlock),
        Err(TryLockError::Poisoned(_)) => Err(LockFailure::Poisoned),
    }
}

pub open spec fn spec_lock_refusal(failure: LockFailure) -> AutoCleanError {
    match failure {
        LockFailure::WouldBlock => AutoCleanError::AlreadyRunning,
        LockFailure::Poisoned => AutoCleanError::StateUnavailable,
    }
}

/// The refusal of a run whose lock could not be taken: held by a run under way, or
/// poisoned by a run that failed.
pub fn lock_refusal(failure: LockFailure) -> (r: AutoCleanError)
    ensures
        r == spec_lock_refusal(failure),
{
    match failure {
        LockFailure::WouldBlock => AutoCleanError::AlreadyRunning,
        LockFailure::Poisoned => AutoCleanError::StateUnavailable,
    }
}

pub open spec fn spec_running_state(attempt: Result<(), LockFailure>) -> Result<bool, AutoCleanError> {
    match attempt {
        Ok(()) => Ok(false),
        Err(LockFailure::WouldBlock) => Ok(true),
        Err(LockFailure::Poisoned) => Err(AutoCleanError::StateUnavailable),
    }
}

/// Whether a run is under way, given how an attempt to take its lock ended: a lock
/// that could be taken is free, one held elsewhere marks a run, and a poisoned one
/// leaves the state unknown.
pub fn running_state(attempt: Result<(), LockFailure>) -> (r: Result<bool, AutoCleanError>)
    ensures
        r == spec_running_state(attempt),
{
    match attempt {
        Ok(()) => Ok(false),
        Err(LockFailure::WouldBlock) => Ok(true),
        Err(LockFailure::Poisoned) => Err(AutoCleanError::StateUnavailable),
    }
}

/// Whether an automatic cleanup is under way.
#[derive(Debug, Default)]
pub struct AutoCleanState {
    running: Mutex<()>,
}

impl AutoCleanState {
    /// Marks a run as started; the run lasts while the returned guard lives. Whether
    /// the lock can be taken depends on the other threads: when it cannot, the refusal
    /// is `lock_refusal` of the failure.
    pub fn begin(&self) -> (r: Result<MutexGuard<'_, ()>, AutoCleanError>)
        ensures
            r matches Err(e) ==> exists|f: LockFailure| e == spec_lock_refusal(f),
    {
        match try_lock_unit(&self.running) {
            Ok(guard) => Ok(guard),
            Err(failure) => Err(lock_refusal(failure)),
        }
    }

    /// Whether a run is under way: `running_state` of an attempt to take the lock,
    /// which depends on the other threads.
    pub fn is_running(&self) -> (r: Result<bool, AutoCleanError>)
        ensures
            exists|attempt: Result<(), LockFailure>| r == spec_running_state(attempt),
    {
        let attempt = match try_lock_unit(&self.running) {
            Ok(_guard) => Ok(()),
            Err(failure) => Err(failure),
        };
        running_state(attempt)
    }
}

/// An automatic cleanup may run only with the database available and privacy mode off.
pub fn ensure_allowed(database_available: bool, privacy_state: PrivacyModeState) -> (r: Result<
    (),
    AutoCleanError,
>)
    ensures
        !database_available ==> r == Err::<(), AutoCleanError>(AutoCleanError::DatabaseUnavailable),
        database_available && privacy_state != PrivacyModeState::Inactive ==> r == Err::<(), AutoCleanError>(
            AutoCleanError::PrivacyModeActive,
        ),
        database_available && privacy_state == PrivacyModeState::Inactive ==> r is Ok,
{
    if !database_available {
        return Err(AutoCleanError::DatabaseUnavailable);
    }
    if privacy_state != PrivacyModeState::Inactive {
        return Err(AutoCleanError::PrivacyModeActive);
    }
    Ok(())
}

/// The outcome of cleaning one Quick Access category.
#[derive(Debug, Clone, PartialEq, Eq)]
pub struct AutoCleanSectionResult {
    pub result: Option<QaBatchResult>,
    pub error: Option<String>,
}

/// The outcome of an automatic cleanup: each category's outcome and their sums.
#[derive(Debug, Clone, PartialEq, Eq)]
pub struct AutoCleanResult {
    pub recent: AutoCleanSectionResult,
    pub frequent: AutoCleanSectionResult,
    pub total: usize,
    pub succeeded: usize,
    pub failed: usize,
    pub warnings: usize,
    pub skipped_protected: usize,
    pub section_errors: usize,
    pub history_errors: usize,
}

pub open spec fn section_total(s: AutoCleanSectionResult) -> int {
    match s.result {
        Some(r) => r.total as int,
        None => 0,
    }
}

pub open spec fn section_succeeded(s: AutoCleanSectionResult) -> int {
    match s.result {
        Some(r) => r.succeeded@.len() as int,
        None => 0,
    }
}

pub open spec fn section_failed(s: AutoCleanSectionResult) -> int {
    match s.result {
        Some(r) => r.failed@.len() as int,
        None => 0,
    }
}

pub open spec fn section_warnings(s: AutoCleanSectionResult) -> int {
    match s.result {
        Some(r) => r.warnings@.len() as int,
        None => 0,
    }
}

pub open spec fn section_protected(s: AutoCleanSectionResult) -> int {
    match s.result {
        Some(r) => r.skipped_protected@.len() as int,
        None => 0,
    }
}

pub open spec fn section_history_errors(s: AutoCleanSectionResult) -> int {
    match s.result {
        Some(r) => if r.history_error is Some {
            1int
        } else {
            0int
        },
        None => 0,
    }
}

pub open spec fn section_error_count(s: AutoCleanSectionResult) -> int {
    if s.error is Some {
        1int
    } else {
        0int
    }
}

/// The sums of the two sections fit in a `usize`.
pub open spec fn sections_fit(recent: AutoCleanSectionResult, frequent: AutoCleanSectionResult) -> bool {
    &&& section_total(recent) + section_total(frequent) <= usize::MAX
    &&& section_succeeded(recent) + section_succeeded(frequent) <= usize::MAX
    &&& section_failed(recent) + section_failed(frequent) <= usize::MAX
    &&& section_warnings(recent) + section_warnings(frequent) <= usize::MAX
    &&& section_protected(recent) + section_protected(frequent) <= usize::MAX
}

/// Each count of `r` is the sum of that count over its two sections.
pub open spec fn is_aggregate(r: AutoCleanResult) -> bool {
    &&& r.total == section_total(r.recent) + section_total(r.frequent)
    &&& r.succeeded == section_succeeded(r.recent) + section_succeeded(r.frequent)
    &&& r.failed == section_failed(r.recent) + section_failed(r.frequent)
    &&& r.warnings == section_warnings(r.recent) + section_warnings(r.frequent)
    &&& r.skipped_protected == section_protected(r.recent) + section_protected(r.frequent)
    &&& r.section_errors == section_error_count(r.recent) + section_error_count(r.frequent)
    &&& r.history_errors == section_history_errors(r.recent) + section_history_errors(r.frequent)
}

pub open spec fn spec_has_failures(r: AutoCleanResult) -> bool {
    r.failed > 0 || r.section_errors > 0 || r.history_errors > 0
}

pub open spec fn spec_has_issues(r: AutoCleanResult) -> bool {
    spec_has_failures(r) || r.warnings > 0
}

impl AutoCleanResult {
    /// Whether an item failed, a section failed, or the history could not be written.
    pub fn has_failures(&self) -> (r: bool)
        ensures
            r == spec_has_failures(*self),
    {
        self.failed > 0 || self.section_errors > 0 || self.history_errors > 0
    }

    /// Whether the run had failures or warnings.
    pub fn has_issues(&self) -> (r: bool)
        ensures
            r == spec_has_issues(*self),
    {
        self.has_failures() || self.warnings > 0
    }

    /// The result of a run whose sections ended as `recent` and `frequent`.
    pub fn from_sections(recent: AutoCleanSectionResult, frequent: AutoCleanSectionResult) -> (r: Self)
        requires
            sections_fit(recent, frequent),
        ensures
            r.recent == recent,
            r.frequent == frequent,
            is_aggregate(r),
    {
        let mut aggregate = AutoCleanResult {
            recent,
            frequent,
            total: 0,
            succeeded: 0,
            failed: 0,
            warnings: 0,
            skipped_protected: 0,
            section_errors: 0,
            history_errors: 0,
        };
        if let Some(result) = &aggregate.recent.result {
            aggregate.total = result.total;
            aggregate.succeeded = result.succeeded.len();
            aggregate.failed = result.failed.len();
            aggregate.warnings = result.warnings.len();
            aggregate.skipped_protected = result.skipped_protected.len();
            aggregate.history_errors = if result.history_error.is_some() {
                1
            } else {
                0
            };
        }
        if aggregate.recent.error.is_some() {
            aggregate.section_errors = 1;
        }
        if let Some(result) = &aggregate.frequent.result {
            aggregate.total = aggregate.total + result.total;
            aggregate.succeeded = aggregate.succeeded + result.succeeded.len();
            aggregate.failed = aggregate.failed + result.failed.len();
            aggregate.warnings = aggregate.warnings + result.warnings.len();
            aggregate.skipped_protected = aggregate.skipped_protected + result.skipped_protected.len();
            if result.history_error.is_some() {
                aggregate.history_errors = aggregate.history_errors + 1;
            }
        }
        if aggregate.frequent.error.is_some() {
            aggregate.section_errors = aggregate.section_errors + 1;
        }
        aggregate
    }
}

/// Whether `s` reports the outcome `out` of cleaning a section: its result when it
/// succeeded, the error's complete text when it failed.
pub open spec fn is_section<E>(s: AutoCleanSectionResult, out: Result<QaBatchResult, E>) -> bool {
    match out {
        Ok(x) => s.result == Some(x) && s.error is None,
        Err(_) => s.result is None && s.error is Some,
    }
}

/// The section result for the outcome of cleaning one category.
pub fn section_result<E: std::fmt::Display>(out: Result<QaBatchResult, E>) -> (s: AutoCleanSectionResult)
    ensures
        is_section(s, out),
{
    match out {
        Ok(result) => AutoCleanSectionResult { result: Some(result), error: None },
        Err(error) => AutoCleanSectionResult { result: None, error: Some(display_alternate(&error)) },
    }
}

/// Half of `usize::MAX`: the sums of two counts below it fit in a `usize`.
pub open spec fn half_usize() -> int {
    usize::MAX as int / 2
}

/// The counts of one section's outcome are small enough to be added to another's.
pub open spec fn outcome_fits<E>(out: Result<QaBatchResult, E>) -> bool {
    match out {
        Ok(x) => {
            &&& x.total <= half_usize()
            &&& x.succeeded@.len() <= half_usize()
            &&& x.failed@.len() <= half_usize()
            &&& x.warnings@.len() <= half_usize()
            &&& x.skipped_protected@.len() <= half_usize()
        },
        Err(_) => true,
    }
}

proof fn lemma_outcomes_fit<E>(
    a: AutoCleanSectionResult,
    b: AutoCleanSectionResult,
    oa: Result<QaBatchResult, E>,
    ob: Result<QaBatchResult, E>,
)
    requires
        is_section(a, oa),
        is_section(b, ob),
        outcome_fits(oa),
        outcome_fits(ob),
    ensures
        sections_fit(a, b),
{
}

/// Cleans the recent files, then the frequent folders, each with `clean` and the
/// automatic source, and sums up their outcomes. A failed section does not stop the
/// other.
pub fn run_sections<E: std::fmt::Display, F: FnMut(&str, CleanSource) -> Result<QaBatchResult, E>>(
    mut clean: F,
) -> (r: AutoCleanResult)
    requires
        forall|q: &str, s: CleanSource| call_requires(clean, (q, s)),
        forall|q: &str, s: CleanSource, o: Result<QaBatchResult, E>|
            call_ensures(clean, (q, s), o) ==> outcome_fits(o),
    ensures
        is_aggregate(r),
        exists|o1: Result<QaBatchResult, E>, o2: Result<QaBatchResult, E>|
            #![trigger call_ensures(clean, ("recent", CleanSource::Auto), o1), call_ensures(clean, ("frequent", CleanSource::Auto), o2)]
            {
                &&& call_ensures(clean, ("recent", CleanSource::Auto), o1)
                &&& call_ensures(clean, ("frequent", CleanSource::Auto), o2)
                &&& is_section(r.recent, o1)
                &&& is_section(r.frequent, o2)
            },
{
    let o1 = clean("recent", CleanSource::Auto);
    let ghost g1 = o1;
    let recent = section_result(o1);
    let o2 = clean("frequent", CleanSource::Auto);
    let ghost g2 = o2;
    let frequent = section_result(o2);
    proof {
        lemma_outcomes_fit(recent, frequent, g1, g2);
    }
    AutoCleanResult::from_sections(recent, frequent)
}

/// The incident id of the first failed item, looking at the recent files first.
pub open spec fn first_incident(r: AutoCleanResult) -> Option<String> {
    match section_incident(r.recent) {
        Some(id) => Some(id),
        None => section_incident(r.frequent),
    }
}

/// The incident id of the first failed item of a section.
pub open spec fn section_incident(s: AutoCleanSectionResult) -> Option<String> {
    match s.result {
        Some(x) => if x.failed@.len() > 0 {
            Some(x.failed@[0].error.incident_id)
        } else {
            None
        },
        None => None,
    }
}

/// What the run history keeps of an automatic cleanup.
pub open spec fn spec_completion(r: AutoCleanResult) -> RunCompletion {
    RunCompletion {
        requested: r.total,
        succeeded: r.succeeded,
        failed: r.failed,
        protected: r.skipped_protected,
        warnings: r.warnings,
        history_errors: r.history_errors,
        section_errors: r.section_errors,
        incident_id: first_incident(r),
    }
}

fn first_failure_incident(section: &AutoCleanSectionResult) -> (r: Option<String>)
    ensures
        r == section_incident(*section),
{
    match &section.result {
        Some(result) => {
            if result.failed.len() > 0 {
                Some(result.failed[0].error.incident_id.clone())
            } else {
                None
            }
        },
        None => None,
    }
}

/// The run record of a finished automatic cleanup: its counts, and the incident id
/// of the first failed item, if any.
pub fn completion_from_result(result: &AutoCleanResult) -> (r: RunCompletion)
    ensures
        r == spec_completion(*result),
{
    let incident_id = match first_failure_incident(&result.recent) {
        Some(id) => Some(id),
        None => first_failure_incident(&result.frequent),
    };
    RunCompletion {
        requested: result.total,
        succeeded: result.succeeded,
        failed: result.failed,
        protected: result.skipped_protected,
        warnings: result.warnings,
        history_errors: result.history_errors,
        section_errors: result.section_errors,
        incident_id,
    }
}

/// Why an automatic cleanup ended without a result.
#[derive(Debug, Clone, PartialEq, Eq)]
pub enum AutoCleanRunError<E> {
    /// The run was refused before it started.
    Refused(AutoCleanError),
    /// The run could not be entered in the run history.
    RunNotStarted(E),
}

/// The result after the run record was written: a failure to write it counts as one
/// more history error.
pub open spec fn after_finish<G>(pre: AutoCleanResult, fin: Result<(), G>) -> AutoCleanResult {
    AutoCleanResult {
        history_errors: (pre.history_errors + if fin is Err {
            1int
        } else {
            0int
        }) as usize,
        ..pre
    }
}

/// What a run that holds the run lock answers: the run could not be entered in the run
/// history (`begin_run` failed), or `begin_run` gave the run's id, `clean` cleaned the
/// recent files and the frequent folders within it, `finish` recorded the completion
/// of their sum, and the answer is that sum, counting a failed record as one more
/// history error. Such a run is never refused.
pub open spec fn is_locked_run<E, F, G, Begin, Clean, Finish>(
    r: Result<AutoCleanResult, AutoCleanRunError<E>>,
    begin_run: Begin,
    clean: Clean,
    finish: Finish,
) -> bool where
    Begin: FnOnce() -> Result<i64, E>,
    Clean: FnMut(&str, CleanSource, i64) -> Result<QaBatchResult, F>,
    Finish: FnOnce(i64, RunCompletion) -> Result<(), G>,
 {
    match r {
        Err(AutoCleanRunError::Refused(_)) => false,
        Err(AutoCleanRunError::RunNotStarted(e)) => call_ensures(begin_run, (), Err::<i64, E>(e)),
        Ok(res) => exists|
            id: i64,
            o1: Result<QaBatchResult, F>,
            o2: Result<QaBatchResult, F>,
            pre: AutoCleanResult,
            fin: Result<(), G>,
        |
            #![trigger call_ensures(clean, ("recent", CleanSource::Auto, id), o1), call_ensures(clean, ("frequent", CleanSource::Auto, id), o2), call_ensures(finish, (id, spec_completion(pre)), fin)]
            {
                &&& call_ensures(begin_run, (), Ok::<i64, E>(id))
                &&& call_ensures(clean, ("recent", CleanSource::Auto, id), o1)
                &&& call_ensures(clean, ("frequent", CleanSource::Auto, id), o2)
                &&& is_aggregate(pre)
                &&& is_section(pre.recent, o1)
                &&& is_section(pre.frequent, o2)
                &&& call_ensures(finish, (id, spec_completion(pre)), fin)
                &&& res == after_finish(pre, fin)
            },
    }
}

/// The rest of an automatic cleanup once the attempt to take the run lock has ended
/// as `lock`: a lock that could not be taken refuses the run (`lock_refusal` of the
/// failure); a lock that was taken lets it go ahead, and it is then never refused:
/// `begin_run` enters the run, `clean` cleans the recent files and then the frequent
/// folders, and `finish` writes the completion.
pub fn run_locked<E, F, G, Begin, Clean, Finish>(
    lock: Result<(), LockFailure>,
    begin_run: Begin,
    mut clean: Clean,
    finish: Finish,
) -> (r: Result<AutoCleanResult, AutoCleanRunError<E>>) where
    F: std::fmt::Display,
    Begin: FnOnce() -> Result<i64, E>,
    Clean: FnMut(&str, CleanSource, i64) -> Result<QaBatchResult, F>,
    Finish: FnOnce(i64, RunCompletion) -> Result<(), G>,

    requires
        call_requires(begin_run, ()),
        forall|q: &str, s: CleanSource, id: i64| call_requires(clean, (q, s, id)),
        forall|q: &str, s: CleanSource, id: i64, o: Result<QaBatchResult, F>|
            call_ensures(clean, (q, s, id), o) ==> outcome_fits(o),
        forall|id: i64, c: RunCompletion| call_requires(finish, (id, c)),
    ensures
        lock matches Err(f) ==> r == Err::<AutoCleanResult, AutoCleanRunError<E>>(
            AutoCleanRunError::Refused(spec_lock_refusal(f)),
        ),
        lock is Ok ==> is_locked_run(r, begin_run, clean, finish),
{
    if let Err(failure) = lock {
        return Err(AutoCleanRunError::Refused(lock_refusal(failure)));
    }
    let run_id = match begin_run() {
        Ok(id) => id,
        Err(e) => {
            return Err(AutoCleanRunError::RunNotStarted(e));
        },
    };
    let o1 = clean("recent", CleanSource::Auto, run_id);
    let ghost g1 = o1;
    let recent = section_result(o1);
    let o2 = clean("frequent", CleanSource::Auto, run_id);
    let ghost g2 = o2;
    let frequent = section_result(o2);
    proof {
        lemma_outcomes_fit(recent, frequent, g1, g2);
    }
    let mut result = AutoCleanResult::from_sections(recent, frequent);
    let ghost pre = result;
    let completion = completion_from_result(&result);
    let fin = finish(run_id, completion);
    let ghost gf = fin;
    if fin.is_err() {
        result.history_errors = result.history_errors + 1;
    }
    assert(call_ensures(finish, (run_id, spec_completion(pre)), gf));
    assert(result == after_finish(pre, gf));
    Ok(result)
}

/// Runs an automatic cleanup. It is refused with the database unavailable or privacy
/// mode on. Otherwise it tries to take the run lock of `state`, whose outcome depends
/// on the other threads, holds it for the rest of the run, and answers as
/// `run_locked` does for that outcome: refused while another run is under way (or
/// with a poisoned lock), and otherwise never refused.
pub fn run<E, F, G, Begin, Clean, Finish>(
    database_available: bool,
    privacy_state: PrivacyModeState,
    state: &AutoCleanState,
    begin_run: Begin,
    clean: Clean,
    finish: Finish,
) -> (r: Result<AutoCleanResult, AutoCleanRunError<E>>) where
    F: std::fmt::Display,
    Begin: FnOnce() -> Result<i64, E>,
    Clean: FnMut(&str, CleanSource, i64) -> Result<QaBatchResult, F>,
    Finish: FnOnce(i64, RunCompletion) -> Result<(), G>,

    requires
        call_requires(begin_run, ()),
        forall|q: &str, s: CleanSource, id: i64| call_requires(clean, (q, s, id)),
        forall|q: &str, s: CleanSource, id: i64, o: Result<QaBatchResult, F>|
            call_ensures(clean, (q, s, id), o) ==> outcome_fits(o),
        forall|id: i64, c: RunCompletion| call_requires(finish, (id, c)),
    ensures
        !database_available ==> r == Err::<AutoCleanResult, AutoCleanRunError<E>>(
            AutoCleanRunError::Refused(AutoCleanError::DatabaseUnavailable),
        ),
        database_available && privacy_state != PrivacyModeState::Inactive ==> r == Err::<
            AutoCleanResult,
            AutoCleanRunError<E>,
        >(AutoCleanRunError::Refused(AutoCleanError::PrivacyModeActive)),
        database_available && privacy_state == PrivacyModeState::Inactive ==> {
            ||| exists|f: LockFailure|
                r == Err::<AutoCleanResult, AutoCleanRunError<E>>(
                    AutoCleanRunError::Refused(#[trigger] spec_lock_refusal(f)),
                )
            ||| is_locked_run(r, begin_run, clean, finish)
        },
{
    if let Err(e) = ensure_allowed(database_available, privacy_state) {
        return Err(AutoCleanRunError::Refused(e));
    }
    let (_running, lock) = match try_lock_unit(&state.running) {
        Ok(guard) => (Some(guard), Ok(())),
        Err(failure) => (None, Err(failure)),
    };
    let r = run_locked(lock, begin_run, clean, finish);
    proof {
        if let Err(f) = lock {
            assert(r == Err::<AutoCleanResult, AutoCleanRunError<E>>(
                AutoCleanRunError::Refused(spec_lock_refusal(f)),
            ));
        }
    }
    r
}

/// The status that the run history derives for an automatic cleanup agrees with
/// its result: a run with no issues is `Success` when it removed something and `Noop`
/// otherwise; a run with failures that removed nothing is `Failed`; a run that
/// removed something but had issues is `Partial`.
pub proof fn law_auto_clean_run_status(r: AutoCleanResult)
    requires
        is_aggregate(r),
    ensures
        !spec_has_issues(r) && r.succeeded > 0 ==> spec_run_status(spec_completion(r)) == CleanupRunStatus::Success,
        !spec_has_issues(r) && r.succeeded == 0 ==> spec_run_status(spec_completion(r)) == CleanupRunStatus::Noop,
        spec_has_failures(r) && r.succeeded == 0 ==> spec_run_status(spec_completion(r)) == CleanupRunStatus::Failed,
        spec_has_issues(r) && r.succeeded > 0 ==> spec_run_status(spec_completion(r)) == CleanupRunStatus::Partial,
        spec_has_failures(r) ==> spec_has_issues(r),
{
}

} // verus!
