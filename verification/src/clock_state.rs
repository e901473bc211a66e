//! The display-mode state machine: which of the three faces the clock shows,
//! how it reacts to button presses and time-sync events, and what each face
//! renders.
use vstd::prelude::*;

verus! {

use crate::clock::ClockNotice;
use crate::clock_time::{
    spec_display_hours, spec_display_minutes, spec_display_seconds, spec_now, ClockTime,
    ClockTimeView,
};
use vstd::arithmetic::div_mod::lemma_mod_division_less_than_divisor;
use crate::{ONE_MINUTE, ONE_SECOND};

/// Ticks between two flips of the blinking edit display: a fixed half-second
/// half-period, cosmetic rather than derived from wall-clock boundaries.
pub const EDIT_BLINK_TICKS: u64 = ONE_SECOND / 2;

/// How the display collaborator should show the four characters.
#[derive(Clone, Copy, Debug, PartialEq, Eq, Structural)]
pub enum BlinkState {
    /// Shown steadily.
    Solid,
    /// Blinking, currently in the visible half-period.
    BlinkingAndOn,
    /// Blinking, currently in the dark half-period.
    BlinkingAndOff,
}

/// The classification of a completed button press, produced by the
/// (external) debounce collaborator.
#[derive(Clone, Copy, Debug, PartialEq, Eq, Structural)]
pub enum PressDuration {
    /// A short tap.
    Short,
    /// A long hold.
    Long,
}

/// What the (external) network time source reports.
#[derive(Clone, Debug, PartialEq, Eq)]
pub enum TimeSyncEvent {
    /// The current time was obtained.
    Success {
        /// Seconds since the Unix epoch, UTC.
        unix_seconds: i64,
    },
    /// The synchronization attempt failed; the message is diagnostic only.
    Failed(String),
}

/// One of the two event sources the state machine waits on.
#[derive(Clone, Debug, PartialEq, Eq)]
pub enum ClockEvent {
    /// A classified button press.
    Press(PressDuration),
    /// A completed time-sync attempt.
    TimeSync(TimeSyncEvent),
}

/// The different states the clock can operate in.
///
/// The clock has two display modes: `HoursMinutes` (HH:MM) and
/// `MinutesSeconds` (MM:SS); a short press toggles between them and a long
/// press enters `EditUtcOffset`, the UTC-offset edit mode.
#[derive(Clone, Copy, Debug, PartialEq, Eq, Structural)]
pub enum ClockState {
    /// The primary clock face, HH:MM.
    HoursMinutes,
    /// The secondary clock face, MM:SS.
    MinutesSeconds,
    /// Timezone adjustment mode, blinking HH:MM.
    EditUtcOffset,
}

impl Default for ClockState {
    /// The machine starts on the primary clock face.
    fn default() -> (r: Self)
        ensures
            r == ClockState::HoursMinutes,
    {
        ClockState::HoursMinutes
    }
}

/// The state the machine moves to when `event` arrives in state `s`.
pub open spec fn spec_transition(s: ClockState, event: ClockEvent) -> ClockState {
    match event {
        ClockEvent::Press(PressDuration::Short) => match s {
            ClockState::HoursMinutes => ClockState::MinutesSeconds,
            ClockState::MinutesSeconds => ClockState::HoursMinutes,
            ClockState::EditUtcOffset => ClockState::EditUtcOffset,
        },
        ClockEvent::Press(PressDuration::Long) => match s {
            ClockState::HoursMinutes => ClockState::EditUtcOffset,
            ClockState::MinutesSeconds => ClockState::EditUtcOffset,
            ClockState::EditUtcOffset => ClockState::HoursMinutes,
        },
        ClockEvent::TimeSync(_) => s,
    }
}

/// The messages the machine sends to the clock task when `event` arrives in
/// state `s`, in order. A failed time sync sends nothing, so state and time
/// are left untouched; in `EditUtcOffset` a short press advances the UTC
/// offset by one hour and re-announces the (unchanged) state.
pub open spec fn spec_notices(s: ClockState, event: ClockEvent) -> Seq<ClockNotice> {
    match event {
        ClockEvent::Press(PressDuration::Short) => match s {
            ClockState::EditUtcOffset => seq![
                ClockNotice::AdjustUtcOffsetHours(1),
                ClockNotice::SetState(ClockState::EditUtcOffset),
            ],
            _ => Seq::empty(),
        },
        ClockEvent::Press(PressDuration::Long) => Seq::empty(),
        ClockEvent::TimeSync(e) => match s {
            ClockState::EditUtcOffset => Seq::empty(),
            _ => match e {
                TimeSyncEvent::Success { unix_seconds } => seq![
                    ClockNotice::SetTimeFromUnix(unix_seconds),
                ],
                TimeSyncEvent::Failed(_) => Seq::empty(),
            },
        },
    }
}

impl ClockState {
    /// Whether the machine waits on the time-sync source in this state.
    /// While editing the UTC offset only the button is consulted.
    pub fn listens_for_time_sync(self) -> (r: bool)
        ensures
            r == (self != ClockState::EditUtcOffset),
    {
        match self {
            ClockState::EditUtcOffset => false,
            _ => true,
        }
    }

    /// The message a completed time-sync attempt turns into: a successful
    /// sync sets the clock from the reported timestamp, a failure is only
    /// reported and changes nothing.
    pub fn handle_time_sync_event(event: &TimeSyncEvent) -> (r: Option<ClockNotice>)
        ensures
            r == match *event {
                TimeSyncEvent::Success { unix_seconds } => Some(
                    ClockNotice::SetTimeFromUnix(unix_seconds),
                ),
                TimeSyncEvent::Failed(_) => None::<ClockNotice>,
            },
    {
        match event {
            TimeSyncEvent::Success { unix_seconds } => Some(
                ClockNotice::SetTimeFromUnix(*unix_seconds),
            ),
            TimeSyncEvent::Failed(_) => None,
        }
    }

    /// Run one step of the machine: the event that ended this state's wait
    /// yields the next state and the messages to send to the clock task, in
    /// order.
    pub fn execute(self, event: &ClockEvent) -> (r: (ClockState, Vec<ClockNotice>))
        ensures
            r.0 == spec_transition(self, *event),
            r.1@ == spec_notices(self, *event),
    {
        let mut notices: Vec<ClockNotice> = Vec::new();
        let next = match event {
            ClockEvent::Press(PressDuration::Short) => match self {
                ClockState::HoursMinutes => ClockState::MinutesSeconds,
                ClockState::MinutesSeconds => ClockState::HoursMinutes,
                ClockState::EditUtcOffset => {
                    notices.push(ClockNotice::AdjustUtcOffsetHours(1));
                    notices.push(ClockNotice::SetState(ClockState::EditUtcOffset));
                    ClockState::EditUtcOffset
                },
            },
            ClockEvent::Press(PressDuration::Long) => match self {
                ClockState::EditUtcOffset => ClockState::HoursMinutes,
                _ => ClockState::EditUtcOffset,
            },
            ClockEvent::TimeSync(e) => {
                if self.listens_for_time_sync() {
                    if let Some(notice) = Self::handle_time_sync_event(e) {
                        notices.push(notice);
                    }
                }
                self
            },
        };
        proof {
            assert(notices@ =~= spec_notices(self, *event));
        }
        (next, notices)
    }
}

/// The blink mode each state shows: the two clock faces are solid, the edit
/// mode blinks with the display visible.
pub open spec fn spec_blink(s: ClockState) -> BlinkState {
    match s {
        ClockState::EditUtcOffset => BlinkState::BlinkingAndOn,
        _ => BlinkState::Solid,
    }
}

/// What a state renders from a clock time at a monotonic tick count: the
/// blink mode, the four characters of the display, and how long the display
/// may sleep before it must be touched again.
pub open spec fn spec_render(s: ClockState, v: ClockTimeView, monotonic: int) -> (
    BlinkState,
    Seq<char>,
    int,
) {
    let now = spec_now(v, monotonic);
    let secs = now / (ONE_SECOND as int);
    let hours = spec_display_hours(secs);
    let minutes = spec_display_minutes(secs);
    let seconds = spec_display_seconds(secs);
    let hh_mm = seq![
        spec_tens_hours_char(hours),
        spec_digit_char(hours % 10),
        spec_digit_char(minutes / 10),
        spec_digit_char(minutes % 10),
    ];
    match s {
        ClockState::HoursMinutes => (
            BlinkState::Solid,
            hh_mm,
            (ONE_MINUTE as int) - now % (ONE_MINUTE as int),
        ),
        ClockState::MinutesSeconds => (
            BlinkState::Solid,
            seq![
                spec_digit_char(minutes / 10),
                spec_digit_char(minutes % 10),
                spec_digit_char(seconds / 10),
                spec_digit_char(seconds % 10),
            ],
            (ONE_SECOND as int) - now % (ONE_SECOND as int),
        ),
        ClockState::EditUtcOffset => (BlinkState::BlinkingAndOn, hh_mm, EDIT_BLINK_TICKS as int),
    }
}

impl ClockState {
    /// What the clock task should hand the display for this state and clock
    /// time at the given monotonic tick count, exactly: a pure function with
    /// no side effects.
    ///
    /// With state `HoursMinutes` and a clock time reading 1:23:45 this
    /// returns the characters `[' ', '1', '2', '3']`, blink mode `Solid`,
    /// and a sleep of 15 seconds, until the next minute boundary.
    pub fn render_at(self, clock_time: &ClockTime, monotonic: u64) -> (r: (
        BlinkState,
        [char; 4],
        u64,
    ))
        requires
            clock_time@.wf(),
        ensures
            r.0 == spec_render(self, clock_time@, monotonic as int).0,
            r.1@ == spec_render(self, clock_time@, monotonic as int).1,
            r.2 == spec_render(self, clock_time@, monotonic as int).2,
    {
        match self {
            ClockState::HoursMinutes => Self::render_hours_minutes(clock_time, monotonic),
            ClockState::MinutesSeconds => Self::render_minutes_seconds(clock_time, monotonic),
            ClockState::EditUtcOffset => Self::render_edit_utc_offset(clock_time, monotonic),
        }
    }

    /// What the clock task should hand the display for this state and clock
    /// time, read against the monotonic clock: the blink mode is determined
    /// by the state alone, and the sleep is bounded by the unit the state
    /// updates on.
    pub fn render(self, clock_time: &ClockTime) -> (r: (BlinkState, [char; 4], u64))
        requires
            clock_time@.wf(),
        ensures
            r.0 == spec_blink(self),
            self == ClockState::HoursMinutes ==> 0 < r.2 <= ONE_MINUTE,
            self == ClockState::MinutesSeconds ==> 0 < r.2 <= ONE_SECOND,
            self == ClockState::EditUtcOffset ==> r.2 == EDIT_BLINK_TICKS,
            exists|monotonic: int|
                0 <= monotonic && (r.0, r.1@, r.2 as int) == #[trigger] spec_render(
                    self,
                    clock_time@,
                    monotonic,
                ),
    {
        let monotonic = crate::clock_time::monotonic_ticks();
        let r = self.render_at(clock_time, monotonic);
        proof {
            let now = spec_now(clock_time@, monotonic as int);
            lemma_mod_division_less_than_divisor(now, ONE_MINUTE as int);
            lemma_mod_division_less_than_divisor(now, ONE_SECOND as int);
            assert((r.0, r.1@, r.2 as int) == spec_render(
                self,
                clock_time@,
                monotonic as int,
            ));
        }
        r
    }

    fn render_hours_minutes(clock_time: &ClockTime, monotonic: u64) -> (r: (
        BlinkState,
        [char; 4],
        u64,
    ))
        requires
            clock_time@.wf(),
        ensures
            r.0 == spec_render(ClockState::HoursMinutes, clock_time@, monotonic as int).0,
            r.1@ == spec_render(ClockState::HoursMinutes, clock_time@, monotonic as int).1,
            r.2 == spec_render(ClockState::HoursMinutes, clock_time@, monotonic as int).2,
    {
        let (hours, minutes, _, sleep_duration) = clock_time.h_m_s_sleep_duration_at(
            ONE_MINUTE,
            monotonic,
        );
        let chars = [tens_hours(hours), ones_digit(hours), tens_digit(minutes), ones_digit(
            minutes,
        )];
        proof {
            assert(chars@ =~= spec_render(
                ClockState::HoursMinutes,
                clock_time@,
                monotonic as int,
            ).1);
        }
        (BlinkState::Solid, chars, sleep_duration)
    }

    fn render_minutes_seconds(clock_time: &ClockTime, monotonic: u64) -> (r: (
        BlinkState,
        [char; 4],
        u64,
    ))
        requires
            clock_time@.wf(),
        ensures
            r.0 == spec_render(ClockState::MinutesSeconds, clock_time@, monotonic as int).0,
            r.1@ == spec_render(ClockState::MinutesSeconds, clock_time@, monotonic as int).1,
            r.2 == spec_render(ClockState::MinutesSeconds, clock_time@, monotonic as int).2,
    {
        let (_, minutes, seconds, sleep_duration) = clock_time.h_m_s_sleep_duration_at(
            ONE_SECOND,
            monotonic,
        );
        let chars = [tens_digit(minutes), ones_digit(minutes), tens_digit(seconds), ones_digit(
            seconds,
        )];
        proof {
            assert(chars@ =~= spec_render(
                ClockState::MinutesSeconds,
                clock_time@,
                monotonic as int,
            ).1);
        }
        (BlinkState::Solid, chars, sleep_duration)
    }

    /// The edit face shows the current local HH:MM as it would appear under
    /// the prospective offset, blinking at a fixed pace.
    fn render_edit_utc_offset(clock_time: &ClockTime, monotonic: u64) -> (r: (
        BlinkState,
        [char; 4],
        u64,
    ))
        requires
            clock_time@.wf(),
        ensures
            r.0 == spec_render(ClockState::EditUtcOffset, clock_time@, monotonic as int).0,
            r.1@ == spec_render(ClockState::EditUtcOffset, clock_time@, monotonic as int).1,
            r.2 == spec_render(ClockState::EditUtcOffset, clock_time@, monotonic as int).2,
    {
        let (hours, minutes, _, _) = clock_time.h_m_s_sleep_duration_at(ONE_MINUTE, monotonic);
        let chars = [tens_hours(hours), ones_digit(hours), tens_digit(minutes), ones_digit(
            minutes,
        )];
        proof {
            assert(chars@ =~= spec_render(
                ClockState::EditUtcOffset,
                clock_time@,
                monotonic as int,
            ).1);
        }
        (BlinkState::BlinkingAndOn, chars, EDIT_BLINK_TICKS)
    }
}

/// The character for the tens digit of a value below 60.
pub fn tens_digit(value: u8) -> (r: char)
    requires
        value < 60,
    ensures
        r == spec_digit_char(value as int / 10),
{
    let d = value / 10;
    if d == 0 {
        '0'
    } else if d == 1 {
        '1'
    } else if d == 2 {
        '2'
    } else if d == 3 {
        '3'
    } else if d == 4 {
        '4'
    } else {
        '5'
    }
}

/// The character for the ones digit of a value below 60.
pub fn ones_digit(value: u8) -> (r: char)
    requires
        value < 60,
    ensures
        r == spec_digit_char(value as int % 10),
{
    let d = value % 10;
    if d == 0 {
        '0'
    } else if d == 1 {
        '1'
    } else if d == 2 {
        '2'
    } else if d == 3 {
        '3'
    } else if d == 4 {
        '4'
    } else if d == 5 {
        '5'
    } else if d == 6 {
        '6'
    } else if d == 7 {
        '7'
    } else if d == 8 {
        '8'
    } else {
        '9'
    }
}

/// The character for the tens digit of the hour on a 12-hour face: a blank,
/// not a zero, when the hour is below 10.
pub fn tens_hours(value: u8) -> (r: char)
    requires
        1 <= value <= 12,
    ensures
        r == spec_tens_hours_char(value as int),
{
    if value >= 10 {
        '1'
    } else {
        ' '
    }
}

/// The decimal digit character for `d` in `0..=9`.
pub open spec fn spec_digit_char(d: int) -> char {
    if d == 0 {
        '0'
    } else if d == 1 {
        '1'
    } else if d == 2 {
        '2'
    } else if d == 3 {
        '3'
    } else if d == 4 {
        '4'
    } else if d == 5 {
        '5'
    } else if d == 6 {
        '6'
    } else if d == 7 {
        '7'
    } else if d == 8 {
        '8'
    } else {
        '9'
    }
}

/// The tens-of-hours character on a 12-hour face: `'1'` from 10 o'clock on,
/// otherwise a blank.
pub open spec fn spec_tens_hours_char(hours: int) -> char {
    if hours >= 10 {
        '1'
    } else {
        ' '
    }
}

} // verus!
