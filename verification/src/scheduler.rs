//! When automatic cleanups run: the waits between them, their timing under each
//! policy, and the decisions of the scheduler and monitor workers.
//!
//! Instants are milliseconds since the Unix epoch, in UTC; durations are milliseconds.
use vstd::prelude::*;

use std::sync::mpsc::{Receiver, RecvTimeoutError, Sender};
use std::time::Duration;

use crate::auto_clean::{spec_has_issues, AutoCleanError, AutoCleanResult};
use crate::config::AutoCleanPolicy;

verus! {

#[verifier::external_type_specification]
#[verifier::external_body]
#[verifier::reject_recursive_types(T)]
pub struct ExSender<T>(Sender<T>);

#[verifier::external_type_specification]
#[verifier::external_body]
#[verifier::reject_recursive_types(T)]
pub struct ExReceiver<T>(Receiver<T>);

/// A request to the scheduler worker.
#[derive(Debug, Clone, Copy, PartialEq, Eq, Structural)]
pub enum SchedulerMessage {
    /// Recompute the next run, because the policy or the last run changed.
    Reschedule,
}

/// How a wait of the scheduler worker ended.
#[derive(Debug, Clone, Copy, PartialEq, Eq, Structural)]
pub enum WaitOutcome {
    /// The wait ran out: it is time to run.
    Run,
    /// A reschedule request arrived.
    Reschedule,
    /// Every sender is gone: the worker stops.
    Stop,
}

/// What a wait on the channel received.
#[derive(Debug, Clone, Copy, PartialEq, Eq, Structural)]
pub enum ReceiveEvent {
    Message(SchedulerMessage),
    Timeout,
    Disconnected,
}

/// Calls `Receiver::recv_timeout`, telling its outcomes apart. What arrives, and
/// when, depends on other threads, so nothing is stated of the outcome.
#[verifier::external_body]
fn receive_within(receiver: &Receiver<SchedulerMessage>, delay: Duration) -> ReceiveEvent {
    match receiver.recv_timeout(delay) {
        Ok(message) => ReceiveEvent::Message(message),
        Err(RecvTimeoutError::Timeout) => ReceiveEvent::Timeout,
        Err(RecvTimeoutError::Disconnected) => ReceiveEvent::Disconnected,
    }
}

/// Calls `Receiver::recv`, which blocks until a message arrives (`Some`) or every
/// sender is gone (`None`). What arrives depends on other threads, so nothing is
/// stated of the outcome.
#[verifier::external_body]
fn receive_message<T>(receiver: &Receiver<T>) -> Option<T> {
    match receiver.recv() {
        Ok(message) => Some(message),
        Err(_) => None,
    }
}

/// Calls `Receiver::try_recv`, which takes a message already waiting (`Some`) without
/// blocking; when none is waiting, or every sender is gone, it gives `None`. What is
/// waiting depends on other threads, so nothing is stated of the outcome.
#[verifier::external_body]
fn try_receive_message<T>(receiver: &Receiver<T>) -> Option<T> {
    match receiver.try_recv() {
        Ok(message) => Some(message),
        Err(_) => None,
    }
}

/// Waits without limit: a message, or the end of the channel; never a timeout.
fn receive(receiver: &Receiver<SchedulerMessage>) -> (r: ReceiveEvent)
    ensures
        !(r is Timeout),
{
    match receive_message(receiver) {
        Some(message) => ReceiveEvent::Message(message),
        None => ReceiveEvent::Disconnected,
    }
}

/// Calls `Sender::send`, which fails only when the receiver is gone; the message
/// is handed back then and dropped here.
#[verifier::external_body]
fn send<T>(sender: &Sender<T>, message: T) -> bool {
    sender.send(message).is_ok()
}

pub open spec fn spec_wait_outcome(event: ReceiveEvent) -> WaitOutcome {
    match event {
        ReceiveEvent::Message(SchedulerMessage::Reschedule) => WaitOutcome::Reschedule,
        ReceiveEvent::Timeout => WaitOutcome::Run,
        ReceiveEvent::Disconnected => WaitOutcome::Stop,
    }
}

/// The outcome of a wait that received `event`: a reschedule request, the end of
/// the wait, or the end of the channel.
pub fn wait_outcome(event: ReceiveEvent) -> (r: WaitOutcome)
    ensures
        r == spec_wait_outcome(event),
{
    match event {
        ReceiveEvent::Message(SchedulerMessage::Reschedule) => WaitOutcome::Reschedule,
        ReceiveEvent::Timeout => WaitOutcome::Run,
        ReceiveEvent::Disconnected => WaitOutcome::Stop,
    }
}

/// Waits for a reschedule request, for at most `delay`, or without limit when there
/// is none. What arrives, and when, depends on the other threads: the outcome is
/// `wait_outcome` of what the wait received, and a wait without a limit never times
/// out, so it never ends in a run.
pub fn wait_for_next(receiver: &Receiver<SchedulerMessage>, delay: Option<Duration>) -> (r: WaitOutcome)
    ensures
        exists|event: ReceiveEvent|
            r == spec_wait_outcome(event) && (delay is None ==> !(event is Timeout)),
        delay is None ==> r != WaitOutcome::Run,
{
    let event = match delay {
        Some(delay) => receive_within(receiver, delay),
        None => receive(receiver),
    };
    wait_outcome(event)
}

/// Why a worker could not be reached.
#[derive(Debug, Clone, Copy, PartialEq, Eq, Structural)]
pub enum WorkerUnavailable {
    Scheduler,
    Monitor,
}

impl WorkerUnavailable {
    /// The description of the failure.
    pub fn message(&self) -> (r: &'static str)
        ensures
            r@ == (match *self {
                WorkerUnavailable::Scheduler => "auto-clean scheduler is unavailable"@,
                WorkerUnavailable::Monitor => "auto-clean monitor is unavailable"@,
            }),
    {
        match self {
            WorkerUnavailable::Scheduler => "auto-clean scheduler is unavailable",
            WorkerUnavailable::Monitor => "auto-clean monitor is unavailable",
        }
    }
}

pub open spec fn spec_delivery(delivered: bool, worker: WorkerUnavailable) -> Result<(), WorkerUnavailable> {
    if delivered {
        Ok(())
    } else {
        Err(worker)
    }
}

/// The answer to a request to `worker`, given whether the request reached its
/// channel: nothing when it did, the worker's unavailability when it did not.
pub fn delivery(delivered: bool, worker: WorkerUnavailable) -> (r: Result<(), WorkerUnavailable>)
    ensures
        r == spec_delivery(delivered, worker),
{
    if delivered {
        Ok(())
    } else {
        Err(worker)
    }
}

/// The handle of the worker that runs scheduled cleanups.
pub struct AutoCleanScheduler {
    sender: Sender<SchedulerMessage>,
}

impl AutoCleanScheduler {
    /// The sending half of the channel that the worker listens on.
    pub closed spec fn channel(&self) -> Sender<SchedulerMessage> {
        self.sender
    }

    /// The handle that talks to the worker listening at the other end of `sender`.
    pub fn new(sender: Sender<SchedulerMessage>) -> (r: Self)
        ensures
            r.channel() == sender,
    {
        AutoCleanScheduler { sender }
    }

    /// Asks the worker to recompute its next run. Whether the request gets through
    /// depends on whether the worker is still listening: the answer is `delivery` of
    /// that for the scheduler.
    pub fn reschedule(&self) -> (r: Result<(), WorkerUnavailable>)
        ensures
            exists|delivered: bool| r == spec_delivery(delivered, WorkerUnavailable::Scheduler),
    {
        delivery(send(&self.sender, SchedulerMessage::Reschedule), WorkerUnavailable::Scheduler)
    }
}

/// The handle of the worker that runs monitored cleanups.
pub struct AutoCleanMonitor {
    sender: Sender<()>,
}

impl AutoCleanMonitor {
    /// The sending half of the channel that the worker listens on.
    pub closed spec fn channel(&self) -> Sender<()> {
        self.sender
    }

    /// The handle that talks to the worker listening at the other end of `sender`.
    pub fn new(sender: Sender<()>) -> (r: Self)
        ensures
            r.channel() == sender,
    {
        AutoCleanMonitor { sender }
    }

    /// Asks the worker to run a monitored cleanup. Whether the request gets through
    /// depends on whether the worker is still listening: the answer is `delivery` of
    /// that for the monitor.
    pub fn trigger(&self) -> (r: Result<(), WorkerUnavailable>)
        ensures
            exists|delivered: bool| r == spec_delivery(delivered, WorkerUnavailable::Monitor),
    {
        delivery(send(&self.sender, ()), WorkerUnavailable::Monitor)
    }
}

/// One hour in milliseconds.
pub const HOUR_MS: i64 = 3_600_000;

/// How long the scheduler waits before retrying after a failure, in milliseconds.
pub const ERROR_RETRY_DELAY_MS: u64 = 60_000;

pub open spec fn spec_max(a: int, b: int) -> int {
    if a >= b {
        a
    } else {
        b
    }
}

/// The next run of an interval policy: `hours` after the later of the last run and
/// the last attempt, but not before `now`; `hours` after `now` when neither is known.
pub open spec fn spec_next_interval_run(now: int, last_run: Option<i64>, last_attempt: Option<i64>, hours: u32) -> int {
    let step = hours * 3_600_000;
    match (last_run, last_attempt) {
        (None, None) => now + step,
        (Some(a), None) => spec_max(a + step, now),
        (None, Some(b)) => spec_max(b + step, now),
        (Some(a), Some(b)) => spec_max(spec_max(a as int, b as int) + step, now),
    }
}

/// The instants fit with an interval of `hours` added.
pub open spec fn interval_fits(now: i64, last_run: Option<i64>, last_attempt: Option<i64>, hours: u32) -> bool {
    let step = hours * 3_600_000;
    &&& now + step <= i64::MAX
    &&& last_run matches Some(a) ==> a + step <= i64::MAX
    &&& last_attempt matches Some(b) ==> b + step <= i64::MAX
}

/// When an interval policy runs next: `hours` after the later of the last run and
/// the last attempt, catching up at once when that is past; `hours` from now when
/// neither is known.
pub fn next_interval_run(now: i64, last_run: Option<i64>, last_attempt: Option<i64>, hours: u32) -> (r: i64)
    requires
        interval_fits(now, last_run, last_attempt, hours),
    ensures
        r == spec_next_interval_run(now as int, last_run, last_attempt, hours),
{
    let step: i64 = hours as i64 * HOUR_MS;
    let anchor: Option<i64> = match (last_run, last_attempt) {
        (None, None) => None,
        (Some(a), None) => Some(a),
        (None, Some(b)) => Some(b),
        (Some(a), Some(b)) => Some(
            if a >= b {
                a
            } else {
                b
            },
        ),
    };
    match anchor {
        None => now + step,
        Some(anchor) => {
            let next = anchor + step;
            if next >= now {
                next
            } else {
                now
            }
        },
    }
}

/// The time from `now` until `next`, or zero when `next` is not later.
pub fn duration_until(now: i64, next: i64) -> (r: u64)
    ensures
        next <= now ==> r == 0,
        next > now ==> r == next - now,
{
    if next <= now {
        0
    } else {
        (next as i128 - now as i128) as u64
    }
}

/// The earliest of `times` that is after `now`.
pub open spec fn earliest_after(times: Seq<i64>, now: i64) -> Option<i64>
    decreases times.len(),
{
    if times.len() == 0 {
        None
    } else {
        let prev = earliest_after(times.drop_last(), now);
        let t = times.last();
        if t > now && (prev is None || t < prev->0) {
            Some(t)
        } else {
            prev
        }
    }
}

fn earliest_after_exec(times: &Vec<i64>, now: i64) -> (r: Option<i64>)
    ensures
        r == earliest_after(times@, now),
{
    let mut best: Option<i64> = None;
    let mut i: usize = 0;
    while i < times.len()
        invariant
            i <= times@.len(),
            best == earliest_after(times@.take(i as int), now),
        decreases times@.len() - i,
    {
        assert(times@.take(i + 1).drop_last() == times@.take(i as int));
        let t = times[i];
        if t > now {
            match best {
                Some(b) => {
                    if t < b {
                        best = Some(t);
                    }
                },
                None => {
                    best = Some(t);
                },
            }
        }
        i = i + 1;
    }
    assert(times@.take(times@.len() as int) == times@);
    best
}

/// Why the next run of a daily policy could not be found.
#[derive(Debug, Clone, Copy, PartialEq, Eq, Structural)]
pub enum DailyRunError {
    InvalidTime,
    DateOutOfRange,
    NoValidTime,
}

impl DailyRunError {
    /// The description of the failure.
    pub fn message(&self) -> (r: &'static str)
        ensures
            r@ == (match *self {
                DailyRunError::InvalidTime => "invalid daily auto-clean time"@,
                DailyRunError::DateOutOfRange => "daily auto-clean date is out of range"@,
                DailyRunError::NoValidTime => "no valid daily auto-clean time found"@,
            }),
    {
        match self {
            DailyRunError::InvalidTime => "invalid daily auto-clean time",
            DailyRunError::DateOutOfRange => "daily auto-clean date is out of range",
            DailyRunError::NoValidTime => "no valid daily auto-clean time found",
        }
    }
}

/// The number of days after today that are searched for a daily run.
pub const DAILY_SEARCH_DAYS: u32 = 366;

/// On day `day` after today, the local time resolved to instants none of which is
/// after `now`.
pub open spec fn nothing_on<Resolve: FnMut(u32) -> Option<Vec<i64>>>(resolve: Resolve, day: u32, now: i64) -> bool {
    exists|w: Vec<i64>|
        #![trigger call_ensures(resolve, (day,), Some::<Vec<i64>>(w))]
        call_ensures(resolve, (day,), Some::<Vec<i64>>(w)) && earliest_after(w@, now) is None
}

/// Whether `r` is what the search for the next daily run at `hour`:`minute` may answer,
/// given the instants that `resolve` gives for each day.
pub open spec fn is_daily_run<Resolve: FnMut(u32) -> Option<Vec<i64>>>(
    r: Result<i64, DailyRunError>,
    now: i64,
    hour: u8,
    minute: u8,
    resolve: Resolve,
) -> bool {
    &&& (hour > 23 || minute > 59) <==> r == Err::<i64, DailyRunError>(DailyRunError::InvalidTime)
    &&& r matches Ok(t) ==> (hour <= 23 && minute <= 59 && exists|d: u32, v: Vec<i64>|
            #![trigger call_ensures(resolve, (d,), Some::<Vec<i64>>(v))]
            {
                &&& d <= DAILY_SEARCH_DAYS
                &&& call_ensures(resolve, (d,), Some::<Vec<i64>>(v))
                &&& earliest_after(v@, now) == Some(t)
                &&& forall|e: u32| e < d ==> #[trigger] nothing_on(resolve, e, now)
            })
    &&& r == Err::<i64, DailyRunError>(DailyRunError::DateOutOfRange) ==> (hour <= 23 && minute <= 59
            && exists|d: u32|
            #![trigger call_ensures(resolve, (d,), None::<Vec<i64>>)]
            {
                &&& d <= DAILY_SEARCH_DAYS
                &&& call_ensures(resolve, (d,), None::<Vec<i64>>)
                &&& forall|e: u32| e < d ==> #[trigger] nothing_on(resolve, e, now)
            })
    &&& r == Err::<i64, DailyRunError>(DailyRunError::NoValidTime) ==> hour <= 23 && minute <= 59 && forall|
            e: u32,
        | e <= DAILY_SEARCH_DAYS ==> #[trigger] nothing_on(resolve, e, now)
}

/// When a daily policy runs next. `resolve(day)` gives the instants at which the
/// local time `hour`:`minute` falls on the `day`-th day after today (none when the
/// time zone skips it, two when it repeats), or `None` when that date cannot be
/// represented. Days are searched from today on, for a year, and the earliest
/// instant after `now` on the first day that has one is the answer.
pub fn next_daily_run<Resolve>(now: i64, hour: u8, minute: u8, resolve: Resolve) -> (r: Result<
    i64,
    DailyRunError,
>) where Resolve: FnMut(u32) -> Option<Vec<i64>>
    requires
        forall|d: u32| call_requires(resolve, (d,)),
    ensures
        is_daily_run(r, now, hour, minute, resolve),
{
    if hour > 23 || minute > 59 {
        return Err(DailyRunError::InvalidTime);
    }
    let mut resolve_day = resolve;
    let mut day: u32 = 0;
    while day <= DAILY_SEARCH_DAYS
        invariant
            resolve_day == resolve,
            day <= DAILY_SEARCH_DAYS + 1,
            hour <= 23 && minute <= 59,
            forall|d: u32| call_requires(resolve, (d,)),
            forall|e: u32| e < day ==> #[trigger] nothing_on(resolve, e, now),
        decreases DAILY_SEARCH_DAYS + 1 - day,
    {
        let resolved = resolve_day(day);
        let ghost got = resolved;
        match resolved {
            None => {
                assert(call_ensures(resolve, (day,), None::<Vec<i64>>));
                assert(forall|e: u32| e < day ==> #[trigger] nothing_on(resolve, e, now));
                return Err(DailyRunError::DateOutOfRange);
            },
            Some(times) => {
                let ghost seen = times;
                match earliest_after_exec(&times, now) {
                    Some(t) => {
                        assert(call_ensures(resolve, (day,), Some::<Vec<i64>>(seen)));
                        assert(earliest_after(seen@, now) == Some(t));
                        assert(forall|e: u32| e < day ==> #[trigger] nothing_on(resolve, e, now));
                        return Ok(t);
                    },
                    None => {
                        assert(call_ensures(resolve, (day,), Some::<Vec<i64>>(seen)));
                        assert(nothing_on(resolve, day, now));
                        assert forall|e: u32| e < day + 1 implies #[trigger] nothing_on(resolve, e, now) by {
                            if e < day {
                            } else {
                                assert(e == day);
                            }
                        }
                    },
                }
            },
        }
        day = day + 1;
    }
    Err(DailyRunError::NoValidTime)
}

pub open spec fn spec_duration_until(now: i64, next: i64) -> u64 {
    if next <= now {
        0
    } else {
        (next - now) as u64
    }
}

/// The time until the next automatic run under `policy`; `None` when the policy
/// schedules no runs (disabled, or run by the monitor).
pub fn next_delay<Resolve>(
    policy: &AutoCleanPolicy,
    last_run: Option<i64>,
    last_attempt: Option<i64>,
    now: i64,
    resolve: Resolve,
) -> (r: Result<Option<u64>, DailyRunError>) where Resolve: FnMut(u32) -> Option<Vec<i64>>
    requires
        forall|d: u32| call_requires(resolve, (d,)),
        *policy matches AutoCleanPolicy::EveryHours { hours } ==> interval_fits(now, last_run, last_attempt, hours),
    ensures
        match *policy {
            AutoCleanPolicy::Disabled | AutoCleanPolicy::Monitor => r == Ok::<Option<u64>, DailyRunError>(None),
            AutoCleanPolicy::EveryHours { hours } => r == Ok::<Option<u64>, DailyRunError>(
                Some(spec_duration_until(now, spec_next_interval_run(now as int, last_run, last_attempt, hours) as i64)),
            ),
            AutoCleanPolicy::DailyAt { hour, minute } => exists|daily: Result<i64, DailyRunError>|
                #![trigger is_daily_run(daily, now, hour, minute, resolve)]
                is_daily_run(daily, now, hour, minute, resolve) && r == match daily {
                    Ok(t) => Ok::<Option<u64>, DailyRunError>(Some(spec_duration_until(now, t))),
                    Err(e) => Err::<Option<u64>, DailyRunError>(e),
                },
        },
{
    match policy {
        AutoCleanPolicy::Disabled | AutoCleanPolicy::Monitor => Ok(None),
        AutoCleanPolicy::EveryHours { hours } => {
            let next = next_interval_run(now, last_run, last_attempt, *hours);
            Ok(Some(duration_until(now, next)))
        },
        AutoCleanPolicy::DailyAt { hour, minute } => {
            let daily = next_daily_run(now, *hour, *minute, resolve);
            let ghost got = daily;
            assert(is_daily_run(got, now, *hour, *minute, resolve));
            match daily {
                Ok(t) => Ok(Some(duration_until(now, t))),
                Err(e) => Err(e),
            }
        },
    }
}

/// What the scheduler worker does after a wait.
#[derive(Debug, Clone, Copy, PartialEq, Eq, Structural)]
pub enum WorkerStep {
    /// Read the settings again and plan the next wait.
    Restart,
    /// End the worker.
    Stop,
    /// Check that the policy is still the planned one, then run.
    Verify,
}

/// The wait that the worker plans from the computed delay: that delay, or, when it
/// could not be computed, a retry after a minute.
pub fn planned_wait<E>(next: Result<Option<u64>, E>) -> (r: (Option<u64>, bool))
    ensures
        match next {
            Ok(d) => r == (d, false),
            Err(_) => r == (Some(ERROR_RETRY_DELAY_MS), true),
        },
{
    match next {
        Ok(delay) => (delay, false),
        Err(_) => (Some(ERROR_RETRY_DELAY_MS), true),
    }
}

/// The step after a wait: a wait for a retry only restarts (or stops); a planned wait
/// that ran out leads to a run, after a check of the policy.
pub fn after_wait(outcome: WaitOutcome, retrying: bool) -> (r: WorkerStep)
    ensures
        outcome == WaitOutcome::Stop ==> r == WorkerStep::Stop,
        outcome == WaitOutcome::Reschedule ==> r == WorkerStep::Restart,
        outcome == WaitOutcome::Run ==> r == (if retrying {
            WorkerStep::Restart
        } else {
            WorkerStep::Verify
        }),
{
    match outcome {
        WaitOutcome::Stop => WorkerStep::Stop,
        WaitOutcome::Reschedule => WorkerStep::Restart,
        WaitOutcome::Run => {
            if retrying {
                WorkerStep::Restart
            } else {
                WorkerStep::Verify
            }
        },
    }
}

/// A planned run goes ahead only when the settings can be read and their policy is
/// still the one that was planned.
pub fn should_run_scheduled(planned: &AutoCleanPolicy, current: Option<AutoCleanPolicy>) -> (r: bool)
    ensures
        r == (current == Some(*planned)),
{
    match current {
        Some(policy) => policy == *planned,
        None => false,
    }
}

/// The last interval attempt after a scheduled run starts at `now`: interval
/// policies remember it, so that a failing run is not retried at once.
pub fn interval_attempt(planned: &AutoCleanPolicy, previous: Option<i64>, now: i64) -> (r: Option<i64>)
    ensures
        planned is EveryHours ==> r == Some(now),
        !(planned is EveryHours) ==> r == previous,
{
    match planned {
        AutoCleanPolicy::EveryHours { .. } => Some(now),
        _ => previous,
    }
}

/// What the monitor worker does once it wakes.
#[derive(Debug, Clone, Copy, PartialEq, Eq, Structural)]
pub enum MonitorWake {
    /// One monitored pass, answering `triggers` queued triggers at once.
    Pass { triggers: u64 },
    /// Every sender is gone: the worker stops.
    Stop,
}

pub open spec fn spec_monitor_wake(woken: bool, pending: u64) -> MonitorWake {
    if !woken {
        MonitorWake::Stop
    } else if pending < u64::MAX {
        MonitorWake::Pass { triggers: (pending + 1) as u64 }
    } else {
        MonitorWake::Pass { triggers: u64::MAX }
    }
}

/// The decision of a monitor worker that was `woken` by a trigger and then found
/// `pending` more triggers queued: one pass answers them all; without a trigger the
/// channel has ended and the worker stops.
pub fn monitor_wake(woken: bool, pending: u64) -> (r: MonitorWake)
    ensures
        r == spec_monitor_wake(woken, pending),
{
    if !woken {
        MonitorWake::Stop
    } else {
        MonitorWake::Pass { triggers: pending.saturating_add(1) }
    }
}

/// Takes every trigger already queued on `receiver`, without blocking, and counts
/// them (up to `u64::MAX`).
fn drain_pending(receiver: &Receiver<()>) -> (r: u64) {
    let mut taken: u64 = 0;
    while taken < u64::MAX
        decreases u64::MAX - taken,
    {
        match try_receive_message(receiver) {
            Some(()) => {
                taken = taken + 1;
            },
            None => {
                break;
            },
        }
    }
    taken
}

/// Waits for the next trigger of the monitor worker, then takes the triggers queued
/// behind it, so that one monitored pass follows however many triggers were waiting.
/// What arrives depends on other threads: the decision is `monitor_wake` of whether a
/// trigger came and of how many were taken after it.
pub fn next_monitor_wake(receiver: &Receiver<()>) -> (r: MonitorWake)
    ensures
        exists|woken: bool, pending: u64| r == spec_monitor_wake(woken, pending),
        r matches MonitorWake::Pass { triggers } ==> triggers >= 1,
{
    match receive_message(receiver) {
        Some(()) => {
            let pending = drain_pending(receiver);
            monitor_wake(true, pending)
        },
        None => monitor_wake(false, 0),
    }
}

/// A monitored cleanup runs only while the policy is `Monitor`.
pub fn monitor_should_run(policy: &AutoCleanPolicy) -> (r: bool)
    ensures
        r == (*policy == AutoCleanPolicy::Monitor),
{
    *policy == AutoCleanPolicy::Monitor
}

/// A monitored cleanup is reported only when it handled items or had issues.
pub fn monitor_should_report(result: &AutoCleanResult) -> (r: bool)
    ensures
        r == (result.total > 0 || spec_has_issues(*result)),
{
    result.total > 0 || result.has_issues()
}

/// A monitored cleanup that found another run under way is retried after a pause;
/// any other refusal ends the attempt.
pub fn monitor_should_retry(error: &AutoCleanError) -> (r: bool)
    ensures
        r == (*error == AutoCleanError::AlreadyRunning),
{
    *error == AutoCleanError::AlreadyRunning
}

/// The event announcing a finished automatic cleanup, completed at `completed_at`.
#[derive(Debug, Clone, Copy, PartialEq, Eq, Structural)]
pub struct AutoCleanFinished {
    pub completed_at: i64,
    pub total: usize,
    pub succeeded: usize,
    pub failed: usize,
    pub warnings: usize,
    pub section_errors: usize,
    pub history_errors: usize,
}

/// The completion event of `result`, finished at `completed_at`.
pub fn finished_event(completed_at: i64, result: &AutoCleanResult) -> (r: AutoCleanFinished)
    ensures
        r == (AutoCleanFinished {
            completed_at,
            total: result.total,
            succeeded: result.succeeded,
            failed: result.failed,
            warnings: result.warnings,
            section_errors: result.section_errors,
            history_errors: result.history_errors,
        }),
{
    AutoCleanFinished {
        completed_at,
        total: result.total,
        succeeded: result.succeeded,
        failed: result.failed,
        warnings: result.warnings,
        section_errors: result.section_errors,
        history_errors: result.history_errors,
    }
}

/// A planned interval run never lies in the past, and when neither the last run nor
/// the last attempt lies in the future it comes at most one interval from now: a
/// missed run is caught up once, not once per missed interval.
pub proof fn law_interval_runs_are_never_in_the_past(
    now: i64,
    last_run: Option<i64>,
    last_attempt: Option<i64>,
    hours: u32,
)
    ensures
        spec_next_interval_run(now as int, last_run, last_attempt, hours) >= now,
        (last_run matches Some(a) ==> a <= now) && (last_attempt matches Some(b) ==> b <= now)
            ==> spec_next_interval_run(now as int, last_run, last_attempt, hours) <= now + hours
            * 3_600_000,
{
}

proof fn lemma_earliest_after(times: Seq<i64>, now: i64)
    ensures
        earliest_after(times, now) matches Some(t) ==> t > now && times.contains(t),
    decreases times.len(),
{
    if times.len() > 0 {
        lemma_earliest_after(times.drop_last(), now);
        if let Some(t) = earliest_after(times.drop_last(), now) {
            let k = choose|k: int| 0 <= k < times.drop_last().len() && times.drop_last()[k] == t;
            assert(times[k] == t);
        }
        assert(times[times.len() - 1] == times.last());
    }
}

/// A daily run that is found lies after `now`, at one of the instants that the local
/// time resolved to on its day.
pub proof fn law_daily_runs_lie_ahead<Resolve: FnMut(u32) -> Option<Vec<i64>>>(
    r: Result<i64, DailyRunError>,
    now: i64,
    hour: u8,
    minute: u8,
    resolve: Resolve,
)
    requires
        is_daily_run(r, now, hour, minute, resolve),
    ensures
        r matches Ok(t) ==> t > now && exists|d: u32, v: Vec<i64>|
            #![trigger call_ensures(resolve, (d,), Some::<Vec<i64>>(v))]
            call_ensures(resolve, (d,), Some::<Vec<i64>>(v)) && v@.contains(t),
{
    if let Ok(t) = r {
        let (d, v) = choose|d: u32, v: Vec<i64>|
            #![trigger call_ensures(resolve, (d,), Some::<Vec<i64>>(v))]
            {
                &&& d <= DAILY_SEARCH_DAYS
                &&& call_ensures(resolve, (d,), Some::<Vec<i64>>(v))
                &&& earliest_after(v@, now) == Some(t)
                &&& forall|e: u32| e < d ==> #[trigger] nothing_on(resolve, e, now)
            };
        lemma_earliest_after(v@, now);
    }
}


/// When an interval policy runs next: never before now, never sooner than the interval
/// after the last run nor sooner than the interval after the last attempt (whichever
/// of them are known, and whichever is later), and at the first such instant: now, or
/// the interval after one of the known instants; with neither known, one interval from
/// now.
pub proof fn law_interval_run_waits_for_every_known_instant(
    now: i64,
    last_run: Option<i64>,
    last_attempt: Option<i64>,
    hours: u32,
)
    ensures
        ({
            let step = hours * 3_600_000;
            let r = spec_next_interval_run(now as int, last_run, last_attempt, hours);
            &&& r >= now
            &&& last_run matches Some(a) ==> r >= a + step
            &&& last_attempt matches Some(b) ==> r >= b + step
            &&& last_run is None && last_attempt is None ==> r == now + step
            &&& (last_run is Some || last_attempt is Some) ==> (r == now || (last_run matches Some(a) && r == a
                + step) || (last_attempt matches Some(b) && r == b + step))
        }),
{
}
} // verus!
