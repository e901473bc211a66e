use clock_core::{
    Clock, ClockEvent, ClockNotice, ClockState, ClockTime, PressDuration, TimeSyncEvent,
    ONE_HOUR, ONE_MINUTE, ONE_SECOND,
};
use core::task::Poll;
use embassy_futures::poll_once;
use embassy_sync::blocking_mutex::raw::CriticalSectionRawMutex;
use embassy_sync::channel::Channel;

#[test]
fn new_clock_is_idle_at_noon() {
    let clock = Clock::new(Clock::notifier());
    assert_eq!(clock.queued(), 0);
    assert_eq!(clock.state(), ClockState::HoursMinutes);
    assert_eq!(clock.time().now_at(0), 12 * ONE_HOUR);
}

#[test]
fn step_with_nothing_queued_does_nothing() {
    let mut clock = Clock::new(Clock::notifier());
    let time_before = clock.time();
    assert!(!clock.step(0));
    assert_eq!(clock.time(), time_before);
    assert_eq!(clock.state(), ClockState::HoursMinutes);
}

#[test]
fn messages_are_applied_in_send_order() {
    let mut clock = Clock::new(Clock::notifier());
    assert!(clock.set_state(ClockState::MinutesSeconds));
    assert!(clock.adjust_offset(2 * ONE_HOUR));
    assert!(clock.set_state(ClockState::EditUtcOffset));
    assert_eq!(clock.queued(), 3);

    assert!(clock.step(0));
    assert_eq!(clock.state(), ClockState::MinutesSeconds);
    assert!(clock.step(0));
    assert_eq!(clock.time().now_at(0), 14 * ONE_HOUR);
    assert!(clock.step(0));
    assert_eq!(clock.state(), ClockState::EditUtcOffset);
    assert_eq!(clock.queued(), 0);
}

#[test]
fn fifth_send_is_refused_until_the_task_drains_one() {
    let mut clock = Clock::new(Clock::notifier());
    assert!(clock.set_state(ClockState::MinutesSeconds));
    assert!(clock.reset_seconds());
    assert!(clock.adjust_offset(ONE_MINUTE));
    assert!(clock.adjust_utc_offset_hours(1));
    assert_eq!(clock.queued(), 4);

    // The mailbox holds 4 messages: the fifth sender must wait its turn;
    // nothing is dropped or overwritten.
    assert!(!clock.set_state(ClockState::HoursMinutes));
    assert_eq!(clock.queued(), 4);

    assert!(clock.step(0));
    assert_eq!(clock.queued(), 3);
    assert!(clock.set_state(ClockState::HoursMinutes));
    assert_eq!(clock.queued(), 4);
}

#[test]
fn set_time_from_unix_message_lands_exactly() {
    let mut clock = Clock::new(Clock::notifier());
    assert!(clock.set_time_from_unix(1_700_000_000));
    assert!(clock.step(999));
    // UTC offset is 0: 1_700_000_000 is 22:13:20 UTC, shown as 10:13:20.
    let (h, m, s, _) = clock.time().h_m_s_sleep_duration_at(ONE_MINUTE, 999);
    assert_eq!((h, m, s), (10, 13, 20));
}

#[test]
fn reset_seconds_advances_to_the_next_minute_boundary() {
    let mut clock = Clock::new(Clock::notifier());
    assert!(clock.set_time_from_unix(86_400 + 5025));
    assert!(clock.reset_seconds());
    assert!(clock.step(7_000_000));
    assert!(clock.step(7_000_000));
    // 01:23:45 advanced forward to 01:24:00, never backward.
    let (h, m, s, _) = clock.time().h_m_s_sleep_duration_at(ONE_MINUTE, 7_000_000);
    assert_eq!((h, m, s), (1, 24, 0));
    assert_eq!(clock.time().now_at(7_000_000) % ONE_MINUTE, 0);
}

#[test]
fn adjust_utc_offset_message_moves_the_display() {
    let mut clock = Clock::new(Clock::notifier());
    assert!(clock.adjust_utc_offset_hours(1));
    assert!(clock.step(0));
    assert_eq!(clock.time().utc_offset_hours(), 1);
    assert_eq!(clock.time().now_at(0), 13 * ONE_HOUR);
}

#[test]
fn apply_at_mutates_the_pair_directly() {
    let mut time = ClockTime::with_utc_offset_minutes(0);
    let mut state = ClockState::HoursMinutes;
    ClockNotice::SetState(ClockState::MinutesSeconds).apply_at(&mut time, &mut state, 0);
    assert_eq!(state, ClockState::MinutesSeconds);
    ClockNotice::AdjustClockTime(30 * ONE_SECOND).apply_at(&mut time, &mut state, 0);
    assert_eq!(time.now_at(0), 12 * ONE_HOUR + 30 * ONE_SECOND);
    ClockNotice::ResetSeconds.apply_at(&mut time, &mut state, 0);
    assert_eq!(time.now_at(0) % ONE_MINUTE, 0);
    assert_eq!(state, ClockState::MinutesSeconds);
}

#[test]
fn with_time_starts_from_the_seeded_offset() {
    let seeded = ClockTime::with_utc_offset_minutes(-480);
    let clock = Clock::with_time(Clock::notifier(), seeded);
    assert_eq!(clock.time(), seeded);
    assert_eq!(clock.time().utc_offset_hours(), -8);
}

#[test]
fn sync_failure_while_showing_seconds_changes_nothing() {
    let mut clock = Clock::new(Clock::notifier());
    assert!(clock.set_state(ClockState::MinutesSeconds));
    assert!(clock.step(0));
    let time_before = clock.time();

    // The driver loop hears a failed sync: the machine stays put and sends
    // nothing, so the clock task's pair is untouched.
    let event = ClockEvent::TimeSync(TimeSyncEvent::Failed("timeout".to_string()));
    let (next, notices) = ClockState::MinutesSeconds.execute(&event);
    assert_eq!(next, ClockState::MinutesSeconds);
    for notice in notices {
        clock_send(&mut clock, notice);
    }
    assert!(!clock.step(0));

    assert_eq!(clock.time(), time_before);
    assert_eq!(clock.state(), ClockState::MinutesSeconds);
}

fn clock_send(clock: &mut Clock, notice: ClockNotice) {
    let sent = match notice {
        ClockNotice::SetState(s) => clock.set_state(s),
        ClockNotice::SetTimeFromUnix(u) => clock.set_time_from_unix(u),
        ClockNotice::AdjustClockTime(d) => clock.adjust_offset(d),
        ClockNotice::ResetSeconds => clock.reset_seconds(),
        ClockNotice::AdjustUtcOffsetHours(h) => clock.adjust_utc_offset_hours(h),
    };
    assert!(sent);
}

#[test]
fn fifth_send_future_suspends_until_a_message_is_drained() {
    // The same channel the clock's mailbox is built on: four sends complete
    // at once, the fifth suspends instead of dropping the message, and it
    // can complete as soon as the task drains one.
    let ch: Channel<CriticalSectionRawMutex, ClockNotice, 4> = Channel::new();
    for _ in 0..4 {
        assert!(matches!(poll_once(ch.send(ClockNotice::ResetSeconds)), Poll::Ready(())));
    }
    assert!(poll_once(ch.send(ClockNotice::ResetSeconds)).is_pending());
    assert!(ch.try_receive().is_ok());
    assert!(matches!(poll_once(ch.send(ClockNotice::ResetSeconds)), Poll::Ready(())));
}

#[test]
fn edit_short_press_round_trip_through_the_clock_task() {
    let mut clock = Clock::new(Clock::notifier());
    assert!(clock.set_state(ClockState::EditUtcOffset));
    assert!(clock.step(0));

    let (next, notices) = ClockState::EditUtcOffset.execute(
        &ClockEvent::Press(PressDuration::Short),
    );
    assert_eq!(next, ClockState::EditUtcOffset);
    for notice in notices {
        clock_send(&mut clock, notice);
    }
    while clock.step(0) {}

    assert_eq!(clock.state(), ClockState::EditUtcOffset);
    assert_eq!(clock.time().utc_offset_hours(), 1);
    assert_eq!(clock.time().now_at(0), 13 * ONE_HOUR);
}
