use clock_core::{
    ones_digit, tens_digit, tens_hours, BlinkState, ClockEvent, ClockNotice, ClockState,
    ClockTime, PressDuration, TimeSyncEvent, ONE_MINUTE, ONE_SECOND,
};

fn press(d: PressDuration) -> ClockEvent {
    ClockEvent::Press(d)
}

#[test]
fn short_press_toggles_between_the_two_faces() {
    let (next, notices) = ClockState::HoursMinutes.execute(&press(PressDuration::Short));
    assert_eq!(next, ClockState::MinutesSeconds);
    assert!(notices.is_empty());

    let (next, notices) = ClockState::MinutesSeconds.execute(&press(PressDuration::Short));
    assert_eq!(next, ClockState::HoursMinutes);
    assert!(notices.is_empty());
}

#[test]
fn long_press_enters_and_leaves_edit_mode() {
    let (next, _) = ClockState::HoursMinutes.execute(&press(PressDuration::Long));
    assert_eq!(next, ClockState::EditUtcOffset);

    let (next, _) = ClockState::MinutesSeconds.execute(&press(PressDuration::Long));
    assert_eq!(next, ClockState::EditUtcOffset);

    let (next, notices) = ClockState::EditUtcOffset.execute(&press(PressDuration::Long));
    assert_eq!(next, ClockState::HoursMinutes);
    assert!(notices.is_empty());
}

#[test]
fn short_press_in_edit_mode_advances_the_offset_and_stays() {
    let (next, notices) = ClockState::EditUtcOffset.execute(&press(PressDuration::Short));
    assert_eq!(next, ClockState::EditUtcOffset);
    assert_eq!(
        notices,
        vec![
            ClockNotice::AdjustUtcOffsetHours(1),
            ClockNotice::SetState(ClockState::EditUtcOffset),
        ],
    );
}

#[test]
fn sync_success_sets_the_time_and_keeps_the_state() {
    let event = ClockEvent::TimeSync(TimeSyncEvent::Success { unix_seconds: 1_700_000_000 });
    for state in [ClockState::HoursMinutes, ClockState::MinutesSeconds] {
        let (next, notices) = state.execute(&event);
        assert_eq!(next, state);
        assert_eq!(notices, vec![ClockNotice::SetTimeFromUnix(1_700_000_000)]);
    }
}

#[test]
fn sync_failure_changes_nothing() {
    let event = ClockEvent::TimeSync(TimeSyncEvent::Failed("no route to pool".to_string()));
    for state in [ClockState::HoursMinutes, ClockState::MinutesSeconds] {
        let (next, notices) = state.execute(&event);
        assert_eq!(next, state);
        assert!(notices.is_empty());
    }
}

#[test]
fn edit_mode_ignores_the_time_sync_source() {
    assert!(ClockState::HoursMinutes.listens_for_time_sync());
    assert!(ClockState::MinutesSeconds.listens_for_time_sync());
    assert!(!ClockState::EditUtcOffset.listens_for_time_sync());

    let event = ClockEvent::TimeSync(TimeSyncEvent::Success { unix_seconds: 1_700_000_000 });
    let (next, notices) = ClockState::EditUtcOffset.execute(&event);
    assert_eq!(next, ClockState::EditUtcOffset);
    assert!(notices.is_empty());
}

#[test]
fn default_state_is_hours_minutes() {
    assert_eq!(ClockState::default(), ClockState::HoursMinutes);
}

#[test]
fn render_blanks_the_hours_tens_digit_below_ten() {
    // 01:23:45 local on the primary face.
    let mut ct = ClockTime::with_utc_offset_minutes(0);
    ct.set_from_unix_at(5025, 0);
    let (blink, chars, sleep) = ClockState::HoursMinutes.render_at(&ct, 0);
    assert_eq!(blink, BlinkState::Solid);
    assert_eq!(chars, [' ', '1', '2', '3']);
    assert_eq!(sleep, 15 * ONE_SECOND);
}

#[test]
fn render_minutes_seconds_face() {
    let mut ct = ClockTime::with_utc_offset_minutes(0);
    ct.set_from_unix_at(5025, 0);
    let (blink, chars, sleep) = ClockState::MinutesSeconds.render_at(&ct, 0);
    assert_eq!(blink, BlinkState::Solid);
    assert_eq!(chars, ['2', '3', '4', '5']);
    assert_eq!(sleep, ONE_SECOND);
}

#[test]
fn render_edit_mode_blinks_at_a_fixed_pace() {
    let mut ct = ClockTime::with_utc_offset_minutes(0);
    ct.set_from_unix_at(5025, 0);
    let (blink, chars, sleep) = ClockState::EditUtcOffset.render_at(&ct, 0);
    assert_eq!(blink, BlinkState::BlinkingAndOn);
    assert_eq!(chars, [' ', '1', '2', '3']);
    assert_eq!(sleep, ONE_SECOND / 2);
}

#[test]
fn render_double_digit_hour_shows_the_one() {
    // 10:05:00 local.
    let mut ct = ClockTime::with_utc_offset_minutes(0);
    ct.set_from_unix_at(10 * 3600 + 5 * 60, 0);
    let (_, chars, _) = ClockState::HoursMinutes.render_at(&ct, 0);
    assert_eq!(chars, ['1', '0', '0', '5']);
}

#[test]
fn render_sleep_reaches_the_next_minute_boundary() {
    let mut ct = ClockTime::with_utc_offset_minutes(0);
    ct.set_from_unix_at(5025, 0);
    let (_, _, sleep) = ClockState::HoursMinutes.render_at(&ct, 0);
    // Advancing by the sleep lands exactly on the next minute.
    ct.add_assign(sleep);
    let (h, m, s, _) = ct.h_m_s_sleep_duration_at(ONE_MINUTE, 0);
    assert_eq!((h, m, s), (1, 24, 0));
}

#[test]
fn render_against_the_live_clock_keeps_the_state_invariants() {
    let ct = ClockTime::default();
    let (blink, chars, sleep) = ClockState::HoursMinutes.render(&ct);
    assert_eq!(blink, BlinkState::Solid);
    assert!(sleep > 0 && sleep <= ONE_MINUTE);
    assert!(chars[0] == ' ' || chars[0] == '1');
    for c in chars.iter().skip(1) {
        assert!(c.is_ascii_digit());
    }

    let (blink, _, sleep) = ClockState::EditUtcOffset.render(&ct);
    assert_eq!(blink, BlinkState::BlinkingAndOn);
    assert_eq!(sleep, ONE_SECOND / 2);
}

#[test]
fn apply_against_the_live_clock_switches_the_state() {
    let mut time = ClockTime::default();
    let mut state = ClockState::HoursMinutes;
    ClockNotice::SetState(ClockState::EditUtcOffset).apply(&mut time, &mut state);
    assert_eq!(state, ClockState::EditUtcOffset);
    ClockNotice::AdjustUtcOffsetHours(-1).apply(&mut time, &mut state);
    assert_eq!(time.utc_offset_hours(), -1);
}

#[test]
fn digit_helpers() {
    assert_eq!(tens_digit(59), '5');
    assert_eq!(tens_digit(7), '0');
    assert_eq!(ones_digit(59), '9');
    assert_eq!(ones_digit(40), '0');
    assert_eq!(tens_hours(9), ' ');
    assert_eq!(tens_hours(10), '1');
    assert_eq!(tens_hours(12), '1');
}
