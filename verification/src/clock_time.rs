//! The time shown on the clock face: a duration offset laid over the
//! hardware's monotonic tick counter, together with a UTC offset in minutes.
//! All arithmetic is unsigned and wraps modulo one day.
use vstd::prelude::*;

verus! {

use vstd::arithmetic::div_mod::{
    lemma_add_mod_noop, lemma_add_mod_noop_right, lemma_div_is_ordered,
    lemma_fundamental_div_mod, lemma_fundamental_div_mod_converse_div,
    lemma_fundamental_div_mod_converse_mod, lemma_mod_division_less_than_divisor,
    lemma_mod_multiples_vanish, lemma_small_mod, lemma_sub_mod_noop_right,
};
use crate::{ONE_HOUR, ONE_SECOND, TICKS_IN_ONE_DAY};

/// Mathematical content of a [`ClockTime`]: the display offset in ticks and
/// the UTC offset in minutes, as unbounded integers.
pub struct ClockTimeView {
    /// Ticks added on top of the monotonic clock, always below one day.
    pub offset: int,
    /// UTC offset in minutes.
    pub utc_offset_minutes: int,
}

impl ClockTimeView {
    /// The invariant every reachable `ClockTime` satisfies: the offset is
    /// reduced modulo one day and the UTC offset is a whole number of hours
    /// between -12 and +14.
    pub open spec fn wf(self) -> bool {
        &&& 0 <= self.offset < TICKS_IN_ONE_DAY
        &&& -720 <= self.utc_offset_minutes <= 840
        &&& self.utc_offset_minutes % 60 == 0
    }
}

/// The displayed time-of-day in ticks, for a given monotonic tick count:
/// `(monotonic + offset) mod one_day`.
pub open spec fn spec_now(v: ClockTimeView, monotonic: int) -> int {
    (monotonic + v.offset) % (TICKS_IN_ONE_DAY as int)
}

/// Seconds since local midnight implied by a Unix timestamp and a UTC offset
/// in minutes, converted to display ticks.
pub open spec fn spec_local_target_ticks(unix_seconds: int, utc_offset_minutes: int) -> int {
    ((unix_seconds + 60 * utc_offset_minutes) % 86_400) * (ONE_SECOND as int)
}

/// Wraps a UTC offset in hours onto the 27-value wheel from -12 to +14.
pub open spec fn spec_wrap_hours(hours: int) -> int {
    (hours + 12) % 27 - 12
}

/// The value of a `ClockTime` after its UTC offset is advanced by `hours`
/// whole hours: the offset in hours is moved on the 27-value wheel, and the
/// display offset is shifted by the hour delta that actually resulted, so
/// the shown time changes consistently with the timezone change.
pub open spec fn spec_adjust(v: ClockTimeView, hours: int) -> ClockTimeView {
    let cur = v.utc_offset_minutes / 60;
    let wrapped = spec_wrap_hours(cur + hours);
    ClockTimeView {
        offset: (v.offset + (ONE_HOUR as int) * (wrapped - cur)) % (TICKS_IN_ONE_DAY as int),
        utc_offset_minutes: 60 * wrapped,
    }
}

/// The hour shown on a 12-hour face for `s` seconds past midnight: 1 to 12,
/// never 0.
pub open spec fn spec_display_hours(s: int) -> int {
    (s / 3600 + 11) % 12 + 1
}

/// The minute of the hour for `s` seconds past midnight.
pub open spec fn spec_display_minutes(s: int) -> int {
    (s % 3600) / 60
}

/// The second of the minute for `s` seconds past midnight.
pub open spec fn spec_display_seconds(s: int) -> int {
    s % 60
}

/// The system time along with an offset to represent the time
/// to display on the clock.
#[derive(Clone, Copy, Debug, PartialEq, Eq, Structural)]
pub struct ClockTime {
    offset: u64,
    utc_offset_minutes: i32,
}

impl View for ClockTime {
    type V = ClockTimeView;

    closed spec fn view(&self) -> ClockTimeView {
        ClockTimeView {
            offset: self.offset as int,
            utc_offset_minutes: self.utc_offset_minutes as int,
        }
    }
}

/// Reads the monotonic tick counter.
///
/// Relies on `embassy_time::Instant::now`: the tick count of the hardware's
/// monotonic clock since boot. Nothing is promised of the value; every caller
/// states only what holds of any tick count.
#[verifier::external_body]
pub(crate) fn monotonic_ticks() -> u64 {
    embassy_time::Instant::now().as_ticks()
}

impl Default for ClockTime {
    /// By default, `ClockTime` reads 12:00:00 at tick zero, with no UTC offset.
    fn default() -> (r: Self)
        ensures
            r@.wf(),
            r@.offset == 12 * 3600 * (ONE_SECOND as int),
            r@.utc_offset_minutes == 0,
    {
        ClockTime { offset: 12 * 3600 * ONE_SECOND, utc_offset_minutes: 0 }
    }
}

impl ClockTime {
    /// Starts at 12:00:00 like `default`, with the given UTC offset, which
    /// must be a whole number of hours between -12 and +14.
    pub fn with_utc_offset_minutes(utc_offset_minutes: i32) -> (r: Self)
        requires
            -720 <= utc_offset_minutes <= 840,
            utc_offset_minutes % 60 == 0,
        ensures
            r@.wf(),
            r@.offset == 12 * 3600 * (ONE_SECOND as int),
            r@.utc_offset_minutes == utc_offset_minutes,
    {
        ClockTime { offset: 12 * 3600 * ONE_SECOND, utc_offset_minutes }
    }

    /// The displayed time-of-day in ticks for the given monotonic tick count,
    /// always within `[0, TICKS_IN_ONE_DAY)`.
    pub fn now_at(&self, monotonic: u64) -> (r: u64)
        requires
            self@.wf(),
        ensures
            r == spec_now(self@, monotonic as int),
            r < TICKS_IN_ONE_DAY,
    {
        let ticks = monotonic % TICKS_IN_ONE_DAY + self.offset % TICKS_IN_ONE_DAY;
        let r = ticks % TICKS_IN_ONE_DAY;
        proof {
            lemma_add_mod_noop(monotonic as int, self@.offset, TICKS_IN_ONE_DAY as int);
        }
        r
    }

    /// The current displayed time-of-day in ticks, read from the monotonic
    /// clock; always within `[0, TICKS_IN_ONE_DAY)`.
    pub fn now(&self) -> (r: u64)
        requires
            self@.wf(),
        ensures
            r < TICKS_IN_ONE_DAY,
    {
        self.now_at(monotonic_ticks())
    }

    /// Sets the time so that the display reads the local time-of-day implied
    /// by the Unix timestamp and the stored UTC offset, at the given
    /// monotonic tick count: the offset is solved for so that `now_at` on the
    /// same tick count returns exactly the target, with a full day added
    /// where the naive subtraction would be negative.
    pub fn set_from_unix_at(&mut self, unix_seconds: i64, monotonic: u64)
        requires
            old(self)@.wf(),
            0 <= unix_seconds + 60 * old(self)@.utc_offset_minutes,
            unix_seconds + 60 * old(self)@.utc_offset_minutes <= i64::MAX,
        ensures
            final(self)@.wf(),
            final(self)@.utc_offset_minutes == old(self)@.utc_offset_minutes,
            final(self)@.offset == (spec_local_target_ticks(
                unix_seconds as int,
                old(self)@.utc_offset_minutes,
            ) - (monotonic as int) % (TICKS_IN_ONE_DAY as int)) % (TICKS_IN_ONE_DAY as int),
            spec_now(final(self)@, monotonic as int) == spec_local_target_ticks(
                unix_seconds as int,
                old(self)@.utc_offset_minutes,
            ),
    {
        let local_seconds: i64 = unix_seconds + (self.utc_offset_minutes as i64) * 60;
        let seconds_since_midnight: u64 = (local_seconds as u64) % 86_400;
        let target_ticks: u64 = seconds_since_midnight * ONE_SECOND;
        let current: u64 = monotonic % TICKS_IN_ONE_DAY;
        let offset_ticks: u64 = if target_ticks >= current {
            target_ticks - current
        } else {
            TICKS_IN_ONE_DAY - current + target_ticks
        };
        proof {
            let d = TICKS_IN_ONE_DAY as int;
            let t = target_ticks as int;
            let c = current as int;
            let q = (monotonic as int) / d;
            assert(t == spec_local_target_ticks(unix_seconds as int, self@.utc_offset_minutes));
            assert(t < d);
            if t >= c {
                lemma_small_mod((t - c) as nat, d as nat);
            } else {
                lemma_mod_multiples_vanish(1, t - c, d);
                lemma_small_mod((d + t - c) as nat, d as nat);
            }
            lemma_fundamental_div_mod(monotonic as int, d);
            lemma_mod_multiples_vanish(q, t, d);
            if t < c {
                lemma_mod_multiples_vanish(q + 1, t, d);
            }
            lemma_small_mod(t as nat, d as nat);
        }
        self.offset = offset_ticks;
    }

    /// Sets the time from a Unix timestamp, read against the monotonic clock
    /// now. The stored UTC offset is applied and left unchanged.
    pub fn set_from_unix(&mut self, unix_seconds: i64)
        requires
            old(self)@.wf(),
            0 <= unix_seconds + 60 * old(self)@.utc_offset_minutes,
            unix_seconds + 60 * old(self)@.utc_offset_minutes <= i64::MAX,
        ensures
            final(self)@.wf(),
            final(self)@.utc_offset_minutes == old(self)@.utc_offset_minutes,
    {
        let monotonic = monotonic_ticks();
        self.set_from_unix_at(unix_seconds, monotonic);
    }

    /// Adds the given duration in ticks to the offset, wrapping around so
    /// the offset stays below one day.
    pub fn add_assign(&mut self, duration: u64)
        requires
            old(self)@.wf(),
        ensures
            final(self)@.wf(),
            final(self)@.utc_offset_minutes == old(self)@.utc_offset_minutes,
            final(self)@.offset == (old(self)@.offset + duration) % (TICKS_IN_ONE_DAY as int),
    {
        let ticks = self.offset % TICKS_IN_ONE_DAY + duration % TICKS_IN_ONE_DAY;
        proof {
            lemma_add_mod_noop(self@.offset, duration as int, TICKS_IN_ONE_DAY as int);
        }
        self.offset = ticks % TICKS_IN_ONE_DAY;
    }

    /// The stored UTC offset rounded to the nearest whole hour, ties away
    /// from zero. Under the invariant the offset is always hour-aligned, so
    /// this is exactly `utc_offset_minutes / 60`.
    pub fn utc_offset_hours(&self) -> (r: i32)
        requires
            self@.wf(),
        ensures
            r == self@.utc_offset_minutes / 60,
            -12 <= r <= 14,
    {
        let m = self.utc_offset_minutes;
        proof {
            lemma_fundamental_div_mod(m as int, 60);
        }
        if m >= 0 {
            let q = ((m as u32) + 30) / 60;
            proof {
                lemma_fundamental_div_mod_converse_div(
                    m + 30,
                    60,
                    (m as int) / 60,
                    30,
                );
            }
            q as i32
        } else {
            let q = (((-m) as u32) + 30) / 60;
            proof {
                lemma_fundamental_div_mod_converse_div(
                    30 - m,
                    60,
                    -((m as int) / 60),
                    30,
                );
            }
            -(q as i32)
        }
    }

    /// Advances the UTC offset by the given number of whole hours, wrapping
    /// on the 27-value wheel from -12 to +14, and shifts the display offset
    /// by the hour delta that actually resulted — not the raw requested
    /// delta — so the shown time moves consistently with the timezone
    /// change. This wheel behavior is intended, not an error.
    pub fn adjust_utc_offset_hours(&mut self, hours: i32)
        requires
            old(self)@.wf(),
        ensures
            final(self)@.wf(),
            final(self)@ == spec_adjust(old(self)@, hours as int),
    {
        let cur: i32 = self.utc_offset_hours();
        let shifted: i64 = cur as i64 + hours as i64 + 12;
        let w27: u64 = if shifted >= 0 {
            (shifted as u64) % 27
        } else {
            let p = ((-shifted) as u64) % 27;
            proof {
                let a = (-shifted) as int;
                let qa = a / 27;
                lemma_fundamental_div_mod(a, 27);
                if p == 0 {
                    lemma_fundamental_div_mod_converse_mod(shifted as int, 27, -qa, 0);
                } else {
                    lemma_fundamental_div_mod_converse_mod(
                        shifted as int,
                        27,
                        -qa - 1,
                        27 - p,
                    );
                }
            }
            if p == 0 {
                0
            } else {
                27 - p
            }
        };
        let wrapped: i32 = (w27 as i32) - 12;
        let delta_hours: i32 = wrapped - cur;
        let shift_abs: u64 = if delta_hours >= 0 {
            delta_hours as u64
        } else {
            (-delta_hours) as u64
        };
        let shift_ticks: u64 = shift_abs * ONE_HOUR;
        let shift_mod: u64 = shift_ticks % TICKS_IN_ONE_DAY;
        let new_offset: u64 = if delta_hours >= 0 {
            (self.offset + shift_mod) % TICKS_IN_ONE_DAY
        } else {
            (self.offset + (TICKS_IN_ONE_DAY - shift_mod)) % TICKS_IN_ONE_DAY
        };
        proof {
            let d = TICKS_IN_ONE_DAY as int;
            let o = self@.offset;
            let sh = (ONE_HOUR as int) * (wrapped - cur);
            if delta_hours >= 0 {
                lemma_add_mod_noop_right(o, sh, d);
            } else {
                lemma_mod_multiples_vanish(1, o - (shift_ticks as int) % d, d);
                lemma_sub_mod_noop_right(o, shift_ticks as int, d);
            }
            lemma_mod_multiples_vanish(wrapped as int, 0, 60);
        }
        self.offset = new_offset;
        self.utc_offset_minutes = wrapped * 60;
    }

    /// The current hours, minutes and seconds of the displayed time at the
    /// given monotonic tick count, together with the wait until the next
    /// boundary of `unit`: render once, then sleep exactly until the display
    /// must change.
    pub fn h_m_s_sleep_duration_at(&self, unit: u64, monotonic: u64) -> (r: (u8, u8, u8, u64))
        requires
            self@.wf(),
            0 < unit,
        ensures
            ({
                let now = spec_now(self@, monotonic as int);
                let s = now / (ONE_SECOND as int);
                &&& r.0 == spec_display_hours(s)
                &&& r.1 == spec_display_minutes(s)
                &&& r.2 == spec_display_seconds(s)
                &&& r.3 == unit - now % (unit as int)
                &&& 1 <= r.0 <= 12
                &&& r.1 < 60
                &&& r.2 < 60
                &&& 0 < r.3 <= unit
            }),
    {
        let now = self.now_at(monotonic);
        let sleep_duration = Self::till_next(now, unit);
        let elapsed_seconds = now / ONE_SECOND;
        proof {
            lemma_div_is_ordered(now as int, 86_399_999_999, ONE_SECOND as int);
            lemma_div_is_ordered(elapsed_seconds as int, 86_399, 3600);
            lemma_div_is_ordered((elapsed_seconds as int) % 3600, 3599, 60);
        }
        let hours = (elapsed_seconds / 3600 + 11) % 12 + 1;
        let minutes = (elapsed_seconds % 3600) / 60;
        let seconds = elapsed_seconds % 60;
        (hours as u8, minutes as u8, seconds as u8, sleep_duration)
    }

    /// The current hours, minutes and seconds of the displayed time, read
    /// from the monotonic clock, with the wait until the next boundary of
    /// `unit`. The hour is on the 12-hour face, never 0.
    pub fn h_m_s_sleep_duration(&self, unit: u64) -> (r: (u8, u8, u8, u64))
        requires
            self@.wf(),
            0 < unit,
        ensures
            1 <= r.0 <= 12,
            r.1 < 60,
            r.2 < 60,
            0 < r.3 <= unit,
    {
        self.h_m_s_sleep_duration_at(unit, monotonic_ticks())
    }

    /// The duration until the next boundary of `unit`: `unit - time % unit`.
    ///
    /// The result is never zero — on an exact boundary a full `unit` is
    /// returned — and adding it to `time` always lands on a boundary.
    pub fn till_next(time: u64, unit: u64) -> (r: u64)
        requires
            0 < unit,
        ensures
            r == unit - time % unit,
            0 < r <= unit,
            (time + r) % (unit as int) == 0,
    {
        let r = unit - time % unit;
        proof {
            let t = time as int;
            let u = unit as int;
            let q = t / u;
            lemma_fundamental_div_mod(t, u);
            assert(t + r == u * q + u);
            vstd::arithmetic::mul::lemma_mul_is_distributive_add(u, q, 1);
            assert(t + r == (q + 1) * u + 0) by {
                vstd::arithmetic::mul::lemma_mul_is_commutative(u, q + 1);
            }
            lemma_fundamental_div_mod_converse_mod(t + r, u, q + 1, 0);
        }
        r
    }
}

/// Advancing the UTC offset shifts the displayed time-of-day by exactly the
/// hour delta that resulted from wrapping on the 27-value wheel — not by
/// the raw requested delta — whatever the monotonic tick count is.
pub proof fn lemma_adjust_shifts_display(v: ClockTimeView, hours: int, monotonic: int)
    requires
        v.wf(),
    ensures
        ({
            let cur = v.utc_offset_minutes / 60;
            let wrapped = spec_wrap_hours(cur + hours);
            spec_now(spec_adjust(v, hours), monotonic) == (spec_now(v, monotonic)
                + (ONE_HOUR as int) * (wrapped - cur)) % (TICKS_IN_ONE_DAY as int)
        }),
{
    let d = TICKS_IN_ONE_DAY as int;
    let cur = v.utc_offset_minutes / 60;
    let wrapped = spec_wrap_hours(cur + hours);
    let sh = (ONE_HOUR as int) * (wrapped - cur);
    lemma_add_mod_noop_right(monotonic, v.offset + sh, d);
    lemma_add_mod_noop_right(sh, monotonic + v.offset, d);
}

/// Adjusting the UTC offset by `hours` and then by `-hours` restores a
/// well-formed `ClockTime` exactly: both the UTC offset and the display
/// offset — and with it the displayed time-of-day — return to their
/// original values, even when the first step wrapped around the wheel.
pub proof fn lemma_adjust_round_trip(v: ClockTimeView, hours: int)
    requires
        v.wf(),
    ensures
        spec_adjust(spec_adjust(v, hours), -hours) == v,
{
    let d = TICKS_IN_ONE_DAY as int;
    let h = ONE_HOUR as int;
    let m = v.utc_offset_minutes;
    let c = m / 60;
    lemma_fundamental_div_mod(m, 60);
    assert(m == 60 * c);
    let w = spec_wrap_hours(c + hours);
    lemma_mod_division_less_than_divisor(c + hours + 12, 27);
    let v2 = spec_adjust(v, hours);
    lemma_fundamental_div_mod_converse_div(60 * w, 60, w, 0);
    assert(v2.utc_offset_minutes / 60 == w);
    // The second wrap lands back on the original offset in hours.
    let x = c + hours + 12;
    let q = x / 27;
    lemma_fundamental_div_mod(x, 27);
    assert(w - hours + 12 == 27 * (-q) + (c + 12)) by {
        vstd::arithmetic::mul::lemma_mul_is_distributive_sub(27, 0, q);
    }
    lemma_mod_multiples_vanish(-q, c + 12, 27);
    lemma_small_mod((c + 12) as nat, 27nat);
    assert(spec_wrap_hours(w - hours) == c);
    // The two display shifts cancel modulo one day.
    let sh = h * (w - c);
    assert(h * (c - w) == -sh) by {
        vstd::arithmetic::mul::lemma_mul_is_distributive_sub_other_way(h, c - w, w - c);
    }
    lemma_add_mod_noop_right(-sh, v.offset + sh, d);
    lemma_small_mod(v.offset as nat, d as nat);
    assert(spec_adjust(v2, -hours).offset == v.offset);
    assert(spec_adjust(v2, -hours) == v);
}

} // verus!
