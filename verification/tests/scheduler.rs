use scourgify::scheduler::{monitor_wake, next_monitor_wake, MonitorWake};
use scourgify::scheduler::{delivery, AutoCleanMonitor, AutoCleanScheduler, WorkerUnavailable};
use chrono::{Days, FixedOffset, LocalResult, TimeZone, Utc};
use scourgify::config::AutoCleanPolicy;
use scourgify::scheduler::{
    after_wait, next_daily_run, next_delay, next_interval_run, planned_wait, should_run_scheduled,
    wait_for_next, DailyRunError, SchedulerMessage, WaitOutcome, WorkerStep, ERROR_RETRY_DELAY_MS,
    HOUR_MS,
};
use std::sync::mpsc;
use std::time::Duration;

fn at(y: i32, m: u32, d: u32, h: u32, min: u32) -> i64 {
    Utc.with_ymd_and_hms(y, m, d, h, min, 0).unwrap().timestamp_millis()
}

fn resolver(
    tz: FixedOffset,
    today: chrono::NaiveDate,
    hour: u32,
    minute: u32,
) -> impl FnMut(u32) -> Option<Vec<i64>> {
    move |day: u32| {
        let date = today.checked_add_days(Days::new(u64::from(day)))?;
        let local = date.and_hms_opt(hour, minute, 0)?;
        Some(match tz.from_local_datetime(&local) {
            LocalResult::Single(t) => vec![t.timestamp_millis()],
            LocalResult::Ambiguous(a, b) => vec![a.timestamp_millis(), b.timestamp_millis()],
            LocalResult::None => Vec::new(),
        })
    }
}

#[test]
fn interval_uses_last_run_or_attempt_and_catches_up_once() {
    let now = at(2026, 7, 13, 12, 0);

    assert_eq!(next_interval_run(now, None, None, 6), now + 6 * HOUR_MS);
    assert_eq!(next_interval_run(now, Some(now - 8 * HOUR_MS), None, 6), now);
    assert_eq!(
        next_interval_run(now, Some(now - 8 * HOUR_MS), Some(now - HOUR_MS), 6),
        now + 5 * HOUR_MS
    );
}

#[test]
fn daily_schedule_uses_the_next_local_occurrence() {
    let timezone = FixedOffset::east_opt(8 * 60 * 60).unwrap();
    let before = timezone.with_ymd_and_hms(2026, 7, 13, 7, 30, 0).unwrap();
    let after = timezone.with_ymd_and_hms(2026, 7, 13, 9, 30, 0).unwrap();

    assert_eq!(
        next_daily_run(before.timestamp_millis(), 8, 0, resolver(timezone, before.date_naive(), 8, 0))
            .unwrap(),
        at(2026, 7, 13, 0, 0)
    );
    assert_eq!(
        next_daily_run(after.timestamp_millis(), 8, 0, resolver(timezone, after.date_naive(), 8, 0))
            .unwrap(),
        at(2026, 7, 14, 0, 0)
    );
}

#[test]
fn disabled_and_monitor_policies_do_not_schedule_runs() {
    let now = at(2026, 7, 13, 12, 0);
    let never = |_: u32| -> Option<Vec<i64>> { None };

    assert_eq!(next_delay(&AutoCleanPolicy::Disabled, None, None, now, never).unwrap(), None);
    assert_eq!(next_delay(&AutoCleanPolicy::Monitor, None, None, now, never).unwrap(), None);
}

#[test]
fn wake_message_interrupts_scheduled_wait() {
    let (sender, receiver) = mpsc::channel();
    sender.send(SchedulerMessage::Reschedule).unwrap();

    assert_eq!(wait_for_next(&receiver, Some(Duration::from_secs(60))), WaitOutcome::Reschedule);
}

#[test]
fn a_closed_channel_stops_the_worker_and_an_elapsed_wait_runs() {
    let (sender, receiver) = mpsc::channel::<SchedulerMessage>();
    assert_eq!(wait_for_next(&receiver, Some(Duration::from_millis(1))), WaitOutcome::Run);
    drop(sender);
    assert_eq!(wait_for_next(&receiver, None), WaitOutcome::Stop);
}

#[test]
fn daily_times_are_checked_and_delays_computed() {
    let timezone = FixedOffset::east_opt(0).unwrap();
    let now = timezone.with_ymd_and_hms(2026, 7, 13, 10, 0, 0).unwrap();
    assert_eq!(
        next_daily_run(now.timestamp_millis(), 24, 0, resolver(timezone, now.date_naive(), 0, 0)),
        Err(DailyRunError::InvalidTime)
    );
    assert_eq!(
        next_delay(
            &AutoCleanPolicy::DailyAt { hour: 11, minute: 30 },
            None,
            None,
            now.timestamp_millis(),
            resolver(timezone, now.date_naive(), 11, 30),
        )
        .unwrap(),
        Some(90 * 60 * 1000)
    );
    assert_eq!(
        next_delay(&AutoCleanPolicy::EveryHours { hours: 2 }, None, None, now.timestamp_millis(), |_: u32| None)
            .unwrap(),
        Some(2 * 3_600_000)
    );
}

#[test]
fn worker_steps_follow_the_wait() {
    assert_eq!(planned_wait::<String>(Ok(Some(5))), (Some(5), false));
    assert_eq!(planned_wait::<String>(Err("x".to_string())), (Some(ERROR_RETRY_DELAY_MS), true));
    assert_eq!(after_wait(WaitOutcome::Run, true), WorkerStep::Restart);
    assert_eq!(after_wait(WaitOutcome::Run, false), WorkerStep::Verify);
    assert_eq!(after_wait(WaitOutcome::Stop, false), WorkerStep::Stop);
    assert_eq!(after_wait(WaitOutcome::Reschedule, false), WorkerStep::Restart);
    assert!(should_run_scheduled(&AutoCleanPolicy::Monitor, Some(AutoCleanPolicy::Monitor)));
    assert!(!should_run_scheduled(&AutoCleanPolicy::Monitor, None));
}

#[test]
fn worker_requests_report_a_gone_worker() {
    assert_eq!(delivery(true, WorkerUnavailable::Scheduler), Ok(()));
    assert_eq!(delivery(false, WorkerUnavailable::Monitor), Err(WorkerUnavailable::Monitor));

    let (tx, rx) = mpsc::channel();
    let scheduler = AutoCleanScheduler::new(tx);
    assert_eq!(scheduler.reschedule(), Ok(()));
    assert_eq!(rx.try_recv(), Ok(SchedulerMessage::Reschedule));
    drop(rx);
    assert_eq!(scheduler.reschedule(), Err(WorkerUnavailable::Scheduler));

    let (tx, rx) = mpsc::channel::<()>();
    let monitor = AutoCleanMonitor::new(tx);
    assert_eq!(monitor.trigger(), Ok(()));
    assert_eq!(rx.try_recv(), Ok(()));
    drop(rx);
    assert_eq!(monitor.trigger(), Err(WorkerUnavailable::Monitor));
}

#[test]
fn monitor_coalesces_queued_triggers_into_one_pass() {
    assert_eq!(monitor_wake(false, 0), MonitorWake::Stop);
    assert_eq!(monitor_wake(true, 0), MonitorWake::Pass { triggers: 1 });
    assert_eq!(monitor_wake(true, 4), MonitorWake::Pass { triggers: 5 });
    assert_eq!(monitor_wake(true, u64::MAX), MonitorWake::Pass { triggers: u64::MAX });

    let (tx, rx) = mpsc::channel::<()>();
    tx.send(()).unwrap();
    tx.send(()).unwrap();
    tx.send(()).unwrap();
    assert_eq!(next_monitor_wake(&rx), MonitorWake::Pass { triggers: 3 });
    tx.send(()).unwrap();
    assert_eq!(next_monitor_wake(&rx), MonitorWake::Pass { triggers: 1 });
    drop(tx);
    assert_eq!(next_monitor_wake(&rx), MonitorWake::Stop);
}
