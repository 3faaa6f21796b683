//! The runtime health of the application's parts, and the overall state derived
//! from them.
use vstd::prelude::*;

use crate::config::AutoCleanPolicy;
use crate::history_runs::{CleanupAction, CleanupRunFilter, CleanupRunQuery, CleanupRunStatus, CleanupTrigger};
use crate::privacy::PrivacyModeState;
use crate::rules::Rule;

verus! {

/// The health of one part of the application.
#[derive(Debug, Clone, Copy, PartialEq, Eq, Structural)]
pub enum RuntimeState {
    Healthy,
    Degraded,
    Error,
    Inactive,
    Running,
    Paused,
    Unknown,
}

/// Which Quick Access backend is in use.
#[derive(Debug, Clone, Copy, PartialEq, Eq, Structural)]
pub enum BackendMode {
    Real,
    Mock,
}

/// How many Quick Access watchers run, are expected and are failing.
#[derive(Debug, Clone, Copy, PartialEq, Eq, Structural)]
pub struct QuickAccessWatcherStatus {
    pub active: usize,
    pub expected: usize,
    pub failing: usize,
}

#[derive(Debug, Clone, Copy, PartialEq, Eq, Structural)]
pub struct RuntimeStatusItem {
    pub state: RuntimeState,
}

#[derive(Debug, Clone, Copy, PartialEq, Eq, Structural)]
pub struct QuickAccessRuntimeStatus {
    pub state: RuntimeState,
    pub active_watchers: usize,
    pub expected_watchers: usize,
    pub failing_watchers: usize,
}

#[derive(Debug, Clone, Copy, PartialEq, Eq)]
pub struct AutoCleanRuntimeStatus {
    pub state: RuntimeState,
    pub policy: &'static str,
}

#[derive(Debug, Clone, Copy, PartialEq, Eq, Structural)]
pub struct RulesRuntimeStatus {
    pub state: RuntimeState,
    pub total: usize,
    pub enabled: usize,
}

/// The health of every part, and of the whole.
#[derive(Debug, Clone, Copy, PartialEq, Eq)]
pub struct RuntimeStatusSnapshot {
    pub overall: RuntimeState,
    pub database: RuntimeStatusItem,
    pub qa_monitoring: QuickAccessRuntimeStatus,
    pub auto_clean: AutoCleanRuntimeStatus,
    pub rules: RulesRuntimeStatus,
}

pub open spec fn spec_quick_access_status(
    backend_mode: BackendMode,
    status: Option<QuickAccessWatcherStatus>,
) -> QuickAccessRuntimeStatus {
    if backend_mode != BackendMode::Real {
        QuickAccessRuntimeStatus {
            state: RuntimeState::Inactive,
            active_watchers: 0,
            expected_watchers: 0,
            failing_watchers: 0,
        }
    } else {
        match status {
            None => QuickAccessRuntimeStatus {
                state: RuntimeState::Error,
                active_watchers: 0,
                expected_watchers: 2,
                failing_watchers: 0,
            },
            Some(s) => QuickAccessRuntimeStatus {
                state: if s.active == 0 {
                    RuntimeState::Error
                } else if s.active < s.expected || s.failing > 0 {
                    RuntimeState::Degraded
                } else {
                    RuntimeState::Healthy
                },
                active_watchers: s.active,
                expected_watchers: s.expected,
                failing_watchers: s.failing,
            },
        }
    }
}

/// The health of Quick Access monitoring: inactive with the mock backend, an error
/// when the watchers cannot be read or none runs, degraded when some are missing or
/// failing.
pub fn quick_access_status(backend_mode: BackendMode, status: Option<QuickAccessWatcherStatus>) -> (r:
    QuickAccessRuntimeStatus)
    ensures
        r == spec_quick_access_status(backend_mode, status),
{
    if backend_mode != BackendMode::Real {
        return QuickAccessRuntimeStatus {
            state: RuntimeState::Inactive,
            active_watchers: 0,
            expected_watchers: 0,
            failing_watchers: 0,
        };
    }
    let status = match status {
        Some(s) => s,
        None => {
            return QuickAccessRuntimeStatus {
                state: RuntimeState::Error,
                active_watchers: 0,
                expected_watchers: 2,
                failing_watchers: 0,
            };
        },
    };
    let state = if status.active == 0 {
        RuntimeState::Error
    } else if status.active < status.expected || status.failing > 0 {
        RuntimeState::Degraded
    } else {
        RuntimeState::Healthy
    };
    QuickAccessRuntimeStatus {
        state,
        active_watchers: status.active,
        expected_watchers: status.expected,
        failing_watchers: status.failing,
    }
}

/// The number of enabled rules among the first `n`.
pub open spec fn enabled_count(rules: Seq<Rule>, n: int) -> nat
    decreases n,
{
    if n <= 0 {
        0
    } else {
        enabled_count(rules, n - 1) + if rules[n - 1].enabled {
            1nat
        } else {
            0nat
        }
    }
}

proof fn lemma_enabled_count_bound(rules: Seq<Rule>, n: int)
    requires
        0 <= n <= rules.len(),
    ensures
        enabled_count(rules, n) <= n,
    decreases n,
{
    if n > 0 {
        lemma_enabled_count_bound(rules, n - 1);
    }
}

pub open spec fn spec_rules_status(rules: Option<Seq<Rule>>) -> RulesRuntimeStatus {
    match rules {
        None => RulesRuntimeStatus { state: RuntimeState::Error, total: 0, enabled: 0 },
        Some(rs) => {
            let enabled = enabled_count(rs, rs.len() as int);
            RulesRuntimeStatus {
                state: if enabled == 0 {
                    RuntimeState::Inactive
                } else {
                    RuntimeState::Healthy
                },
                total: rs.len() as usize,
                enabled: enabled as usize,
            }
        },
    }
}

/// The health of the rules, from the stored rules (`None` when they cannot be read):
/// inactive when no rule is enabled.
pub fn rules_status(rules: Option<&[Rule]>) -> (r: RulesRuntimeStatus)
    ensures
        r == spec_rules_status(
            match rules {
                Some(rs) => Some(rs@),
                None => None,
            },
        ),
{
    match rules {
        None => RulesRuntimeStatus { state: RuntimeState::Error, total: 0, enabled: 0 },
        Some(rs) => {
            let mut enabled: usize = 0;
            let mut i: usize = 0;
            while i < rs.len()
                invariant
                    i <= rs@.len(),
                    enabled == enabled_count(rs@, i as int),
                decreases rs@.len() - i,
            {
                proof {
                    lemma_enabled_count_bound(rs@, i as int);
                }
                if rs[i].enabled {
                    enabled = enabled + 1;
                }
                i = i + 1;
            }
            RulesRuntimeStatus {
                state: if enabled == 0 {
                    RuntimeState::Inactive
                } else {
                    RuntimeState::Healthy
                },
                total: rs.len(),
                enabled,
            }
        },
    }
}

pub open spec fn spec_merge_last_run(worker_state: RuntimeState, last_run: Option<CleanupRunStatus>) -> RuntimeState {
    if worker_state != RuntimeState::Healthy && worker_state != RuntimeState::Degraded {
        worker_state
    } else {
        match last_run {
            Some(CleanupRunStatus::Running) => RuntimeState::Running,
            Some(CleanupRunStatus::Partial) => RuntimeState::Degraded,
            Some(CleanupRunStatus::Failed) | Some(CleanupRunStatus::Interrupted) => RuntimeState::Error,
            _ => worker_state,
        }
    }
}

/// The state of a working scheduler or monitor, adjusted by its last run: a run
/// under way shows as running, a partial one as degraded, a failed or interrupted
/// one as an error.
pub fn merge_last_run(worker_state: RuntimeState, last_run: Option<CleanupRunStatus>) -> (r: RuntimeState)
    ensures
        r == spec_merge_last_run(worker_state, last_run),
{
    if worker_state != RuntimeState::Healthy && worker_state != RuntimeState::Degraded {
        return worker_state;
    }
    match last_run {
        Some(CleanupRunStatus::Running) => RuntimeState::Running,
        Some(CleanupRunStatus::Partial) => RuntimeState::Degraded,
        Some(CleanupRunStatus::Failed) | Some(CleanupRunStatus::Interrupted) => RuntimeState::Error,
        _ => worker_state,
    }
}

pub open spec fn spec_worker_state(
    policy: AutoCleanPolicy,
    qa_monitoring: RuntimeState,
    scheduler_alive: bool,
    monitor_alive: bool,
) -> RuntimeState {
    match policy {
        AutoCleanPolicy::Disabled => RuntimeState::Inactive,
        AutoCleanPolicy::Monitor => if !monitor_alive {
            RuntimeState::Error
        } else if qa_monitoring == RuntimeState::Error {
            RuntimeState::Error
        } else if qa_monitoring == RuntimeState::Degraded {
            RuntimeState::Degraded
        } else {
            RuntimeState::Healthy
        },
        _ => if scheduler_alive {
            RuntimeState::Healthy
        } else {
            RuntimeState::Error
        },
    }
}

pub open spec fn spec_auto_clean_state(
    policy: AutoCleanPolicy,
    running: Option<bool>,
    last_run: Option<CleanupRunStatus>,
    privacy: PrivacyModeState,
    database: RuntimeState,
    rules: RuntimeState,
    qa_monitoring: RuntimeState,
    scheduler_alive: bool,
    monitor_alive: bool,
) -> RuntimeState {
    if running == Some(true) {
        RuntimeState::Running
    } else if running is None {
        RuntimeState::Error
    } else if policy == AutoCleanPolicy::Disabled {
        RuntimeState::Inactive
    } else if privacy != PrivacyModeState::Inactive {
        RuntimeState::Paused
    } else if database == RuntimeState::Error || rules == RuntimeState::Error {
        RuntimeState::Error
    } else {
        spec_merge_last_run(spec_worker_state(policy, qa_monitoring, scheduler_alive, monitor_alive), last_run)
    }
}

/// The health of automatic cleanup: running while a run is under way; an error when
/// that cannot be told; inactive when disabled; paused in privacy mode; an error
/// without the database or the rules; otherwise the health of the worker that
/// triggers it (the monitor, which also depends on Quick Access monitoring, or the
/// scheduler), adjusted by the last run.
pub fn auto_clean_state(
    policy: &AutoCleanPolicy,
    running: Option<bool>,
    last_run: Option<CleanupRunStatus>,
    privacy: PrivacyModeState,
    database: RuntimeState,
    rules: RuntimeState,
    qa_monitoring: RuntimeState,
    scheduler_alive: bool,
    monitor_alive: bool,
) -> (r: RuntimeState)
    ensures
        r == spec_auto_clean_state(
            *policy,
            running,
            last_run,
            privacy,
            database,
            rules,
            qa_monitoring,
            scheduler_alive,
            monitor_alive,
        ),
{
    match running {
        Some(true) => {
            return RuntimeState::Running;
        },
        None => {
            return RuntimeState::Error;
        },
        Some(false) => {},
    }
    if *policy == AutoCleanPolicy::Disabled {
        return RuntimeState::Inactive;
    }
    if privacy != PrivacyModeState::Inactive {
        return RuntimeState::Paused;
    }
    if database == RuntimeState::Error || rules == RuntimeState::Error {
        return RuntimeState::Error;
    }
    let worker_state = match policy {
        AutoCleanPolicy::Disabled => RuntimeState::Inactive,
        AutoCleanPolicy::Monitor => {
            if !monitor_alive {
                RuntimeState::Error
            } else {
                match qa_monitoring {
                    RuntimeState::Error => RuntimeState::Error,
                    RuntimeState::Degraded => RuntimeState::Degraded,
                    _ => RuntimeState::Healthy,
                }
            }
        },
        _ => {
            if scheduler_alive {
                RuntimeState::Healthy
            } else {
                RuntimeState::Error
            }
        },
    };
    merge_last_run(worker_state, last_run)
}

pub open spec fn spec_run_trigger(policy: AutoCleanPolicy) -> Option<CleanupTrigger> {
    match policy {
        AutoCleanPolicy::Disabled => None,
        AutoCleanPolicy::Monitor => Some(CleanupTrigger::Monitor),
        _ => Some(CleanupTrigger::Scheduled),
    }
}

/// The trigger of the automatic runs that `policy` starts: the monitor, or the
/// scheduler; none when automatic cleanup is disabled.
pub fn latest_run_trigger(policy: &AutoCleanPolicy) -> (r: Option<CleanupTrigger>)
    ensures
        r == spec_run_trigger(*policy),
{
    match policy {
        AutoCleanPolicy::Disabled => None,
        AutoCleanPolicy::Monitor => Some(CleanupTrigger::Monitor),
        _ => Some(CleanupTrigger::Scheduled),
    }
}

/// The query for the latest automatic run started by `trigger`: one run, newest first.
pub fn latest_run_query(trigger: CleanupTrigger) -> (r: CleanupRunQuery)
    ensures
        r.page == 1,
        r.page_size == 1,
        r.filter.action == Some(CleanupAction::AutoClean),
        r.filter.trigger == Some(trigger),
        r.filter.status is None,
        r.filter.date_range is None,
{
    CleanupRunQuery {
        page: 1,
        page_size: 1,
        filter: CleanupRunFilter {
            action: Some(CleanupAction::AutoClean),
            trigger: Some(trigger),
            status: None,
            date_range: None,
        },
    }
}

pub open spec fn spec_overall_state(states: Seq<RuntimeState>) -> RuntimeState {
    if states.contains(RuntimeState::Error) {
        RuntimeState::Error
    } else if states.contains(RuntimeState::Degraded) {
        RuntimeState::Degraded
    } else if states.contains(RuntimeState::Unknown) {
        RuntimeState::Unknown
    } else if states.contains(RuntimeState::Running) {
        RuntimeState::Running
    } else {
        RuntimeState::Healthy
    }
}

fn contains_state(states: &[RuntimeState], wanted: RuntimeState) -> (r: bool)
    ensures
        r == states@.contains(wanted),
{
    let mut i: usize = 0;
    while i < states.len()
        invariant
            i <= states@.len(),
            forall|k: int| 0 <= k < i ==> states@[k] != wanted,
        decreases states@.len() - i,
    {
        if states[i] == wanted {
            assert(states@[i as int] == wanted);
            return true;
        }
        i = i + 1;
    }
    false
}

/// The state of the whole: the most severe of the parts' states, errors first,
/// then degradations, unknown states and runs; inactive and paused parts do not
/// count against it.
pub fn overall_state(states: &[RuntimeState]) -> (r: RuntimeState)
    ensures
        r == spec_overall_state(states@),
{
    if contains_state(states, RuntimeState::Error) {
        RuntimeState::Error
    } else if contains_state(states, RuntimeState::Degraded) {
        RuntimeState::Degraded
    } else if contains_state(states, RuntimeState::Unknown) {
        RuntimeState::Unknown
    } else if contains_state(states, RuntimeState::Running) {
        RuntimeState::Running
    } else {
        RuntimeState::Healthy
    }
}

pub open spec fn spec_policy_name(p: AutoCleanPolicy) -> Seq<char> {
    match p {
        AutoCleanPolicy::Disabled => "disabled"@,
        AutoCleanPolicy::Monitor => "monitor"@,
        AutoCleanPolicy::EveryHours { .. } => "every_hours"@,
        AutoCleanPolicy::DailyAt { .. } => "daily_at"@,
    }
}

/// The name of the policy's kind, as reported in the status.
pub fn policy_name(policy: &AutoCleanPolicy) -> (r: &'static str)
    ensures
        r@ == spec_policy_name(*policy),
{
    match policy {
        AutoCleanPolicy::Disabled => "disabled",
        AutoCleanPolicy::Monitor => "monitor",
        AutoCleanPolicy::EveryHours { .. } => "every_hours",
        AutoCleanPolicy::DailyAt { .. } => "daily_at",
    }
}

/// Whether `r` is the status snapshot for the given observations.
pub open spec fn is_runtime_status(
    r: RuntimeStatusSnapshot,
    database_available: bool,
    backend_mode: BackendMode,
    watchers: Option<QuickAccessWatcherStatus>,
    rules: Option<Seq<Rule>>,
    policy: AutoCleanPolicy,
    running: Option<bool>,
    last_run: Option<CleanupRunStatus>,
    privacy: PrivacyModeState,
    scheduler_alive: bool,
    monitor_alive: bool,
) -> bool {
    let database = if database_available {
        RuntimeState::Healthy
    } else {
        RuntimeState::Error
    };
    let qa = spec_quick_access_status(backend_mode, watchers);
    let rs = spec_rules_status(rules);
    let auto = spec_auto_clean_state(
        policy,
        running,
        last_run,
        privacy,
        database,
        rs.state,
        qa.state,
        scheduler_alive,
        monitor_alive,
    );
    &&& r.database.state == database
    &&& r.qa_monitoring == qa
    &&& r.rules == rs
    &&& r.auto_clean.state == auto
    &&& r.auto_clean.policy@ == spec_policy_name(policy)
    &&& r.overall == spec_overall_state(seq![database, qa.state, auto, rs.state])
}

/// The status snapshot from what was observed: whether the database is available,
/// the backend and its watchers, the stored rules (`None` when unreadable), the
/// policy, whether a run is under way (`None` when that cannot be told), the status
/// of the latest automatic run, the privacy mode, and whether the scheduler and the
/// monitor are alive.
pub fn runtime_status(
    database_available: bool,
    backend_mode: BackendMode,
    watchers: Option<QuickAccessWatcherStatus>,
    rules: Option<&[Rule]>,
    policy: &AutoCleanPolicy,
    running: Option<bool>,
    last_run: Option<CleanupRunStatus>,
    privacy: PrivacyModeState,
    scheduler_alive: bool,
    monitor_alive: bool,
) -> (r: RuntimeStatusSnapshot)
    ensures
        is_runtime_status(
            r,
            database_available,
            backend_mode,
            watchers,
            match rules {
                Some(rs) => Some(rs@),
                None => None,
            },
            *policy,
            running,
            last_run,
            privacy,
            scheduler_alive,
            monitor_alive,
        ),
{
    let database_state = if database_available {
        RuntimeState::Healthy
    } else {
        RuntimeState::Error
    };
    let qa_monitoring = quick_access_status(backend_mode, watchers);
    let rules = rules_status(rules);
    let auto = auto_clean_state(
        policy,
        running,
        last_run,
        privacy,
        database_state,
        rules.state,
        qa_monitoring.state,
        scheduler_alive,
        monitor_alive,
    );
    let states = [database_state, qa_monitoring.state, auto, rules.state];
    assert(states@ == seq![database_state, qa_monitoring.state, auto, rules.state]);
    RuntimeStatusSnapshot {
        overall: overall_state(&states),
        database: RuntimeStatusItem { state: database_state },
        qa_monitoring,
        auto_clean: AutoCleanRuntimeStatus { state: auto, policy: policy_name(policy) },
        rules,
    }
}

/// An error in any part makes the whole an error; otherwise the whole is never
/// better than a degraded part; and parts that are only healthy, inactive or paused
/// leave the whole healthy.
pub proof fn law_overall_state(states: Seq<RuntimeState>)
    ensures
        states.contains(RuntimeState::Error) ==> spec_overall_state(states) == RuntimeState::Error,
        !states.contains(RuntimeState::Error) && states.contains(RuntimeState::Degraded) ==> spec_overall_state(
            states,
        ) == RuntimeState::Degraded,
        (forall|i: int|
            0 <= i < states.len() ==> #[trigger] states[i] == RuntimeState::Healthy || states[i]
                == RuntimeState::Inactive || states[i] == RuntimeState::Paused) ==> spec_overall_state(states)
            == RuntimeState::Healthy,
{
}

/// While no run is under way, an enabled automatic cleanup shows as paused in
/// privacy mode, whatever the other parts' states; a run under way always shows as
/// running.
pub proof fn law_privacy_mode_pauses_auto_clean(
    policy: AutoCleanPolicy,
    running: Option<bool>,
    last_run: Option<CleanupRunStatus>,
    privacy: PrivacyModeState,
    database: RuntimeState,
    rules: RuntimeState,
    qa_monitoring: RuntimeState,
    scheduler_alive: bool,
    monitor_alive: bool,
)
    ensures
        running == Some(false) && policy != AutoCleanPolicy::Disabled && privacy != PrivacyModeState::Inactive
            ==> spec_auto_clean_state(
            policy,
            running,
            last_run,
            privacy,
            database,
            rules,
            qa_monitoring,
            scheduler_alive,
            monitor_alive,
        ) == RuntimeState::Paused,
        running == Some(true) ==> spec_auto_clean_state(
            policy,
            running,
            last_run,
            privacy,
            database,
            rules,
            qa_monitoring,
            scheduler_alive,
            monitor_alive,
        ) == RuntimeState::Running,
{
}


/// How Quick Access monitoring is judged, whatever the counts: with the mock backend
/// it is inactive; with the real one it is an error when the watchers cannot be read
/// or none is active, healthy exactly when some watcher is active, none is missing and
/// none is failing, and degraded otherwise. In particular a failing watcher always
/// degrades it. The counts reported are the watchers' own.
pub proof fn law_monitoring_health(backend_mode: BackendMode, status: Option<QuickAccessWatcherStatus>)
    ensures
        backend_mode == BackendMode::Mock ==> spec_quick_access_status(backend_mode, status).state
            == RuntimeState::Inactive,
        backend_mode == BackendMode::Real && status is None ==> spec_quick_access_status(backend_mode, status).state
            == RuntimeState::Error,
        backend_mode == BackendMode::Real ==> (status matches Some(s) ==> {
            let q = spec_quick_access_status(backend_mode, status);
            &&& (q.state == RuntimeState::Error <==> s.active == 0)
            &&& (q.state == RuntimeState::Healthy <==> (s.active > 0 && s.active >= s.expected && s.failing == 0))
            &&& (s.active > 0 && s.failing > 0 ==> q.state == RuntimeState::Degraded)
            &&& (s.active > 0 && s.active < s.expected ==> q.state == RuntimeState::Degraded)
            &&& q.active_watchers == s.active
            &&& q.expected_watchers == s.expected
            &&& q.failing_watchers == s.failing
        }),
{
}
} // verus!
