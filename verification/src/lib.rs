//! Core of a button-controlled digital clock: a wraparound-safe
//! time-of-day representation kept as monotonic ticks plus an offset,
//! a three-mode display state machine, and the bounded message protocol
//! through which the two halves of the device talk to each other.
use vstd::prelude::*;

mod clock;
mod clock_state;
mod clock_time;

pub use clock::{Clock, ClockNotice, Mailbox};
pub use clock_state::{
    ones_digit, tens_digit, tens_hours, BlinkState, ClockEvent, ClockState, PressDuration,
    TimeSyncEvent,
};
pub use clock_time::ClockTime;
pub use clock_time::ClockTimeView;

verus! {

/// Ticks of the monotonic clock in one second (one tick is a microsecond).
pub const ONE_SECOND: u64 = 1_000_000;

/// Ticks in one minute.
pub const ONE_MINUTE: u64 = 60 * ONE_SECOND;

/// Ticks in one hour.
pub const ONE_HOUR: u64 = 3600 * ONE_SECOND;

/// Ticks in one day; every displayed time-of-day lies below this bound.
pub const TICKS_IN_ONE_DAY: u64 = 24 * ONE_HOUR;

} // verus!
