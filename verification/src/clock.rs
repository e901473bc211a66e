//! The clock task's side of the device: the message protocol that mutates
//! the live `(ClockTime, ClockState)` pair, the bounded mailbox the messages
//! travel through, and the task-step logic that drains and applies them.
use vstd::prelude::*;

verus! {

use embassy_sync::blocking_mutex::raw::CriticalSectionRawMutex;
use embassy_sync::channel::Channel;
use crate::clock_state::ClockState;
use crate::clock_time::{
    spec_adjust, spec_local_target_ticks, spec_now, ClockTime, ClockTimeView,
};
use crate::{ONE_MINUTE, TICKS_IN_ONE_DAY};

/// A message for the clock task. Each variant is one of the operations that
/// may mutate the task's `(ClockTime, ClockState)` pair.
#[derive(Clone, Copy, Debug, PartialEq, Eq, Structural)]
pub enum ClockNotice {
    /// Switch the display-mode tag.
    SetState(ClockState),
    /// Set the displayed time from a Unix timestamp (seconds, UTC).
    SetTimeFromUnix(i64),
    /// Add a duration in ticks to the displayed time, modulo one day.
    AdjustClockTime(u64),
    /// Advance the displayed time forward to the next minute boundary.
    ResetSeconds,
    /// Advance the UTC offset by a number of whole hours, wrapping on the
    /// 27-value wheel from -12 to +14.
    AdjustUtcOffsetHours(i32),
}

/// The display-mode tag after a notice is applied: only `SetState` changes
/// it.
pub open spec fn spec_apply_state(n: ClockNotice, s: ClockState) -> ClockState {
    match n {
        ClockNotice::SetState(new_state) => new_state,
        _ => s,
    }
}

/// The clock time after a notice is applied at a monotonic tick count.
pub open spec fn spec_apply_time(n: ClockNotice, v: ClockTimeView, monotonic: int) -> ClockTimeView {
    let day = TICKS_IN_ONE_DAY as int;
    match n {
        ClockNotice::SetState(_) => v,
        ClockNotice::SetTimeFromUnix(unix_seconds) => ClockTimeView {
            offset: (spec_local_target_ticks(unix_seconds as int, v.utc_offset_minutes)
                - monotonic % day) % day,
            utc_offset_minutes: v.utc_offset_minutes,
        },
        ClockNotice::AdjustClockTime(delta) => ClockTimeView {
            offset: (v.offset + delta) % day,
            utc_offset_minutes: v.utc_offset_minutes,
        },
        ClockNotice::ResetSeconds => ClockTimeView {
            offset: (v.offset + ((ONE_MINUTE as int) - spec_now(v, monotonic) % (
            ONE_MINUTE as int))) % day,
            utc_offset_minutes: v.utc_offset_minutes,
        },
        ClockNotice::AdjustUtcOffsetHours(hours) => spec_adjust(v, hours as int),
    }
}

/// Whether a notice may be applied to a clock time with the given UTC
/// offset: a timestamp must stay within the machine's range once the offset
/// is added.
pub open spec fn spec_notice_ok_for(n: ClockNotice, v: ClockTimeView) -> bool {
    match n {
        ClockNotice::SetTimeFromUnix(unix_seconds) => 0 <= unix_seconds + 60
            * v.utc_offset_minutes && unix_seconds + 60 * v.utc_offset_minutes <= i64::MAX,
        _ => true,
    }
}

/// Whether a notice may be queued: the bound on a timestamp that keeps its
/// conversion to local seconds nonnegative and free of overflow for every
/// UTC offset the clock can hold (at most twelve hours each way).
pub open spec fn spec_notice_ok(n: ClockNotice) -> bool {
    match n {
        ClockNotice::SetTimeFromUnix(unix_seconds) => 43_200 <= unix_seconds <= i64::MAX
            - 50_400,
        _ => true,
    }
}

impl ClockNotice {
    /// Handles the action associated with this notice, at the given
    /// monotonic tick count: exactly one of the five mutations of the
    /// `(ClockTime, ClockState)` pair.
    pub fn apply_at(
        self,
        clock_time: &mut ClockTime,
        clock_state: &mut ClockState,
        monotonic: u64,
    )
        requires
            old(clock_time)@.wf(),
            spec_notice_ok_for(self, old(clock_time)@),
        ensures
            final(clock_time)@.wf(),
            final(clock_time)@ == spec_apply_time(self, old(clock_time)@, monotonic as int),
            *final(clock_state) == spec_apply_state(self, *old(clock_state)),
    {
        match self {
            ClockNotice::SetTimeFromUnix(unix_seconds) => {
                clock_time.set_from_unix_at(unix_seconds, monotonic);
            },
            ClockNotice::AdjustClockTime(delta) => {
                clock_time.add_assign(delta);
            },
            ClockNotice::SetState(new_clock_mode) => {
                *clock_state = new_clock_mode;
            },
            ClockNotice::ResetSeconds => {
                let sleep_duration = ClockTime::till_next(
                    clock_time.now_at(monotonic),
                    ONE_MINUTE,
                );
                clock_time.add_assign(sleep_duration);
            },
            ClockNotice::AdjustUtcOffsetHours(hours) => {
                clock_time.adjust_utc_offset_hours(hours);
            },
        }
    }

    /// Handles the action associated with this notice, read against the
    /// monotonic clock now. The display-mode tag changes exactly as
    /// `spec_apply_state` says; the time changes as `spec_apply_time` says
    /// for the tick count that was read.
    pub fn apply(self, clock_time: &mut ClockTime, clock_state: &mut ClockState)
        requires
            old(clock_time)@.wf(),
            spec_notice_ok_for(self, old(clock_time)@),
        ensures
            final(clock_time)@.wf(),
            *final(clock_state) == spec_apply_state(self, *old(clock_state)),
            exists|monotonic: int|
                0 <= monotonic && final(clock_time)@ == #[trigger] spec_apply_time(
                    self,
                    old(clock_time)@,
                    monotonic,
                ),
    {
        let monotonic = crate::clock_time::monotonic_ticks();
        self.apply_at(clock_time, clock_state, monotonic);
        proof {
            assert((*clock_time)@ == spec_apply_time(
                self,
                old(clock_time)@,
                monotonic as int,
            ));
        }
    }
}

/// The bounded mailbox that carries `ClockNotice` messages to the clock
/// task: first-in first-out, with room for 4 messages.
#[verifier::external_body]
pub struct Mailbox {
    channel: Channel<CriticalSectionRawMutex, ClockNotice, 4>,
}

/// The messages the mailbox holds, oldest first.
pub uninterp spec fn mailbox_contents(m: Mailbox) -> Seq<ClockNotice>;

impl Mailbox {
    /// Relies on `embassy_sync::channel::Channel::new`: a new channel holds
    /// no messages.
    #[verifier::external_body]
    pub(crate) fn new() -> (r: Mailbox)
        ensures
            mailbox_contents(r) == Seq::<ClockNotice>::empty(),
    {
        Mailbox { channel: Channel::new() }
    }

    /// Relies on `embassy_sync::channel::Channel::try_send`: the message is
    /// appended at the back, unless the queue already holds its capacity of
    /// 4 messages, in which case it is returned and nothing changes.
    #[verifier::external_body]
    pub(crate) fn try_send(&mut self, notice: ClockNotice) -> (r: bool)
        ensures
            mailbox_contents(*old(self)).len() < 4 ==> r && mailbox_contents(*final(self))
                == mailbox_contents(*old(self)).push(notice),
            mailbox_contents(*old(self)).len() >= 4 ==> !r && mailbox_contents(*final(self))
                == mailbox_contents(*old(self)),
    {
        self.channel.try_send(notice).is_ok()
    }

    /// Relies on `embassy_sync::channel::Channel::try_receive`: the oldest
    /// message is popped from the front, or nothing when the queue is empty.
    #[verifier::external_body]
    pub(crate) fn try_receive(&mut self) -> (r: Option<ClockNotice>)
        ensures
            mailbox_contents(*old(self)).len() == 0 ==> r is None && mailbox_contents(
                *final(self),
            ) == mailbox_contents(*old(self)),
            mailbox_contents(*old(self)).len() > 0 ==> r == Some(
                mailbox_contents(*old(self))[0],
            ) && mailbox_contents(*final(self)) == mailbox_contents(*old(self)).drop_first(),
    {
        self.channel.try_receive().ok()
    }

    /// Relies on `embassy_sync::channel::Channel::len`: the number of
    /// messages currently queued.
    #[verifier::external_body]
    pub(crate) fn len(&self) -> (r: usize)
        ensures
            r == mailbox_contents(*self).len(),
    {
        self.channel.len()
    }
}

/// Whether every queued notice may be applied whatever the clock's UTC
/// offset is by the time it is drained.
pub open spec fn spec_queue_ok(s: Seq<ClockNotice>) -> bool {
    forall|i: int| 0 <= i < s.len() ==> spec_notice_ok(#[trigger] s[i])
}

/// The clock device: the single owner of the live `(ClockTime, ClockState)`
/// pair and of the mailbox its messages arrive through. The rest of the
/// system interacts with the pair only by enqueueing notices; the task loop
/// drains them one `step` at a time, re-rendering after each.
pub struct Clock {
    notifier: Mailbox,
    time: ClockTime,
    state: ClockState,
}

impl Clock {
    /// The messages waiting in the mailbox, oldest first.
    pub closed spec fn queue(self) -> Seq<ClockNotice> {
        mailbox_contents(self.notifier)
    }

    /// The live clock time.
    pub closed spec fn spec_time(self) -> ClockTimeView {
        self.time@
    }

    /// The live display-mode tag.
    pub closed spec fn spec_state(self) -> ClockState {
        self.state
    }

    /// The invariant every reachable `Clock` satisfies: the time is well
    /// formed and everything queued can be applied safely.
    pub closed spec fn wf(self) -> bool {
        &&& self.time@.wf()
        &&& spec_queue_ok(mailbox_contents(self.notifier))
    }

    /// Creates the mailbox a `Clock` is built around. The composition root
    /// owns it and hands it to `new`.
    pub fn notifier() -> (r: Mailbox)
        ensures
            mailbox_contents(r).len() == 0,
    {
        Mailbox::new()
    }

    /// A clock reading 12:00:00 with no UTC offset, on the primary face,
    /// with nothing queued.
    pub fn new(notifier: Mailbox) -> (r: Clock)
        requires
            mailbox_contents(notifier).len() == 0,
        ensures
            r.wf(),
            r.queue().len() == 0,
            r.spec_state() == ClockState::HoursMinutes,
            r.spec_time().offset == 12 * 3600 * (crate::ONE_SECOND as int),
            r.spec_time().utc_offset_minutes == 0,
    {
        Clock { notifier, time: ClockTime::default(), state: ClockState::default() }
    }

    /// A clock starting from the given time — seeded, for example, with a
    /// build-time UTC offset — on the primary face, with nothing queued.
    pub fn with_time(notifier: Mailbox, time: ClockTime) -> (r: Clock)
        requires
            mailbox_contents(notifier).len() == 0,
            time@.wf(),
        ensures
            r.wf(),
            r.queue().len() == 0,
            r.spec_state() == ClockState::HoursMinutes,
            r.spec_time() == time@,
    {
        Clock { notifier, time, state: ClockState::default() }
    }

    /// Enqueues a notice: at the back when fewer than 4 messages wait,
    /// refused — the caller must retry once the task has drained one —
    /// when the mailbox is full. Backpressure, never loss.
    fn send(&mut self, notice: ClockNotice) -> (r: bool)
        requires
            old(self).wf(),
            spec_notice_ok(notice),
        ensures
            final(self).wf(),
            final(self).spec_time() == old(self).spec_time(),
            final(self).spec_state() == old(self).spec_state(),
            old(self).queue().len() < 4 ==> r && final(self).queue() == old(self).queue().push(
                notice,
            ),
            old(self).queue().len() >= 4 ==> !r && final(self).queue() == old(self).queue(),
    {
        let r = self.notifier.try_send(notice);
        proof {
            let before = mailbox_contents(old(self).notifier);
            let after = mailbox_contents(self.notifier);
            if before.len() < 4 {
                assert forall|i: int| 0 <= i < after.len() implies spec_notice_ok(
                    #[trigger] after[i],
                ) by {
                    if i < before.len() {
                        assert(spec_notice_ok(before[i]));
                    }
                }
            }
        }
        r
    }

    /// Asks the task to switch the display-mode tag.
    pub fn set_state(&mut self, clock_state: ClockState) -> (r: bool)
        requires
            old(self).wf(),
        ensures
            final(self).wf(),
            final(self).spec_time() == old(self).spec_time(),
            final(self).spec_state() == old(self).spec_state(),
            old(self).queue().len() < 4 ==> r && final(self).queue() == old(self).queue().push(
                ClockNotice::SetState(clock_state),
            ),
            old(self).queue().len() >= 4 ==> !r && final(self).queue() == old(self).queue(),
    {
        self.send(ClockNotice::SetState(clock_state))
    }

    /// Asks the task to set the time from a Unix timestamp. The timestamp
    /// must lie far enough inside the machine's range that adding any UTC
    /// offset the clock can hold neither underflows the epoch nor overflows.
    pub fn set_time_from_unix(&mut self, unix_seconds: i64) -> (r: bool)
        requires
            old(self).wf(),
            43_200 <= unix_seconds <= i64::MAX - 50_400,
        ensures
            final(self).wf(),
            final(self).spec_time() == old(self).spec_time(),
            final(self).spec_state() == old(self).spec_state(),
            old(self).queue().len() < 4 ==> r && final(self).queue() == old(self).queue().push(
                ClockNotice::SetTimeFromUnix(unix_seconds),
            ),
            old(self).queue().len() >= 4 ==> !r && final(self).queue() == old(self).queue(),
    {
        self.send(ClockNotice::SetTimeFromUnix(unix_seconds))
    }

    /// Asks the task to add a duration in ticks to the displayed time.
    pub fn adjust_offset(&mut self, delta: u64) -> (r: bool)
        requires
            old(self).wf(),
        ensures
            final(self).wf(),
            final(self).spec_time() == old(self).spec_time(),
            final(self).spec_state() == old(self).spec_state(),
            old(self).queue().len() < 4 ==> r && final(self).queue() == old(self).queue().push(
                ClockNotice::AdjustClockTime(delta),
            ),
            old(self).queue().len() >= 4 ==> !r && final(self).queue() == old(self).queue(),
    {
        self.send(ClockNotice::AdjustClockTime(delta))
    }

    /// Asks the task to advance the displayed time to the next minute
    /// boundary, so the minute face shows no stale sub-minute drift.
    pub fn reset_seconds(&mut self) -> (r: bool)
        requires
            old(self).wf(),
        ensures
            final(self).wf(),
            final(self).spec_time() == old(self).spec_time(),
            final(self).spec_state() == old(self).spec_state(),
            old(self).queue().len() < 4 ==> r && final(self).queue() == old(self).queue().push(
                ClockNotice::ResetSeconds,
            ),
            old(self).queue().len() >= 4 ==> !r && final(self).queue() == old(self).queue(),
    {
        self.send(ClockNotice::ResetSeconds)
    }

    /// Asks the task to advance the UTC offset by whole hours on the wheel
    /// from -12 to +14.
    pub fn adjust_utc_offset_hours(&mut self, hours: i32) -> (r: bool)
        requires
            old(self).wf(),
        ensures
            final(self).wf(),
            final(self).spec_time() == old(self).spec_time(),
            final(self).spec_state() == old(self).spec_state(),
            old(self).queue().len() < 4 ==> r && final(self).queue() == old(self).queue().push(
                ClockNotice::AdjustUtcOffsetHours(hours),
            ),
            old(self).queue().len() >= 4 ==> !r && final(self).queue() == old(self).queue(),
    {
        self.send(ClockNotice::AdjustUtcOffsetHours(hours))
    }

    /// Drains and applies one notice, at the given monotonic tick count:
    /// the oldest waiting message mutates the live pair, in send order.
    /// Returns whether a message was waiting.
    pub fn step(&mut self, monotonic: u64) -> (r: bool)
        requires
            old(self).wf(),
        ensures
            final(self).wf(),
            old(self).queue().len() == 0 ==> !r && final(self).queue() == old(self).queue()
                && final(self).spec_time() == old(self).spec_time() && final(self).spec_state()
                == old(self).spec_state(),
            old(self).queue().len() > 0 ==> r && final(self).queue() == old(
                self,
            ).queue().drop_first() && final(self).spec_time() == spec_apply_time(
                old(self).queue()[0],
                old(self).spec_time(),
                monotonic as int,
            ) && final(self).spec_state() == spec_apply_state(
                old(self).queue()[0],
                old(self).spec_state(),
            ),
    {
        match self.notifier.try_receive() {
            Some(notice) => {
                proof {
                    let before = mailbox_contents(old(self).notifier);
                    assert(spec_notice_ok(before[0]));
                    let after = mailbox_contents(self.notifier);
                    assert forall|i: int| 0 <= i < after.len() implies spec_notice_ok(
                        #[trigger] after[i],
                    ) by {
                        assert(after[i] == before[i + 1]);
                        assert(spec_notice_ok(before[i + 1]));
                    }
                }
                notice.apply_at(&mut self.time, &mut self.state, monotonic);
                true
            },
            None => false,
        }
    }

    /// The number of messages waiting in the mailbox.
    pub fn queued(&self) -> (r: usize)
        ensures
            r == self.queue().len(),
    {
        self.notifier.len()
    }

    /// The live display-mode tag.
    pub fn state(&self) -> (r: ClockState)
        ensures
            r == self.spec_state(),
    {
        self.state
    }

    /// A copy of the live clock time.
    pub fn time(&self) -> (r: ClockTime)
        ensures
            r@ == self.spec_time(),
    {
        self.time
    }

    /// What the task should hand the display right now, at the given
    /// monotonic tick count: the current state rendered over the current
    /// time.
    pub fn render_at(&self, monotonic: u64) -> (r: (
        crate::clock_state::BlinkState,
        [char; 4],
        u64,
    ))
        requires
            self.wf(),
        ensures
            r.0 == crate::clock_state::spec_render(
                self.spec_state(),
                self.spec_time(),
                monotonic as int,
            ).0,
            r.1@ == crate::clock_state::spec_render(
                self.spec_state(),
                self.spec_time(),
                monotonic as int,
            ).1,
            r.2 == crate::clock_state::spec_render(
                self.spec_state(),
                self.spec_time(),
                monotonic as int,
            ).2,
    {
        self.state.render_at(&self.time, monotonic)
    }
}

} // verus!
