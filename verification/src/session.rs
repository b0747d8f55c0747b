//! Waiting for a moment of the trading session.

use crate::clock::{truncated, LocalDateTime, TimeOfDay, NANOS_PER_SEC, SECS_PER_DAY};
use vstd::prelude::*;

verus! {

impl LocalDateTime {
    /// Strictly earlier.
    pub open spec fn earlier(self, other: LocalDateTime) -> bool {
        self.day < other.day || (self.day == other.day && self.time.earlier(other.time))
    }

    /// Nanoseconds since the midnight before day 0.
    pub open spec fn nanos(self) -> int {
        (self.day * SECS_PER_DAY + self.time.secs) * NANOS_PER_SEC + self.time.nanos
    }

    /// Whole seconds until another moment, rounded towards zero.
    pub open spec fn until(self, deadline: LocalDateTime) -> int {
        truncated(deadline.nanos() - self.nanos(), NANOS_PER_SEC as int)
    }
}

/// Whole seconds from `now` until `deadline`, rounded towards zero.
pub fn seconds_until(now: LocalDateTime, deadline: LocalDateTime) -> (r: i64)
    ensures
        r == now.until(deadline),
{
    let days: i128 = deadline.day as i128 - now.day as i128;
    let secs: i128 = days * 86_400 + deadline.time.secs as i128 - now.time.secs as i128;
    let nanos: i128 = secs * 1_000_000_000 + deadline.time.nanos as i128 - now.time.nanos as i128;
    (nanos / 1_000_000_000) as i64
}

/// The moment until which to wait for `target`: today's if it is still to come, now if it has
/// passed but the session is on, tomorrow's otherwise.
pub fn compute_session_wait_deadline(
    now: LocalDateTime,
    target: TimeOfDay,
    session_end: TimeOfDay,
) -> (r: LocalDateTime)
    requires
        now.day < i32::MAX,
    ensures
        r == (if !target.earlier(now.time) {
            LocalDateTime { day: now.day, time: target }
        } else if now.time.earlier(session_end) {
            now
        } else {
            LocalDateTime { day: (now.day + 1) as i32, time: target }
        }),
        !r.earlier(now),
{
    if !target.is_before(now.time) {
        return LocalDateTime { day: now.day, time: target };
    }
    if now.time.is_before(session_end) {
        return now;
    }
    LocalDateTime { day: now.day + 1, time: target }
}

/// What to do about a wait.
#[derive(Debug, Clone, Copy, PartialEq, Eq, Structural)]
pub enum WaitStep {
    /// The wait is over.
    Over,
    /// Sleep for so many seconds, then look again.
    Sleep(u64),
}

/// A wait is looked at again after this many seconds at the latest.
pub const WAIT_SLICE_SECS: u64 = 10;

/// What to do about a wait: sleep until the deadline, but for a second at least and for a slice at
/// most.
pub fn wait_step(stopped: bool, now: LocalDateTime, deadline: LocalDateTime) -> (r: WaitStep)
    ensures
        r == (if stopped || !now.earlier(deadline) {
            WaitStep::Over
        } else if now.until(deadline) < 1 {
            WaitStep::Sleep(1)
        } else if now.until(deadline) < WAIT_SLICE_SECS {
            WaitStep::Sleep(now.until(deadline) as u64)
        } else {
            WaitStep::Sleep(WAIT_SLICE_SECS)
        }),
{
    let before: bool = now.day < deadline.day || (now.day == deadline.day && now.time.is_before(
        deadline.time,
    ));
    if stopped || !before {
        return WaitStep::Over;
    }
    let seconds_left: i64 = seconds_until(now, deadline);
    if seconds_left < 1 {
        WaitStep::Sleep(1)
    } else if (seconds_left as u64) < WAIT_SLICE_SECS {
        WaitStep::Sleep(seconds_left as u64)
    } else {
        WaitStep::Sleep(WAIT_SLICE_SECS)
    }
}

/// The whole seconds until a moment fit into the time until then, and one more would not.
pub proof fn remaining_seconds_fit(now: LocalDateTime, deadline: LocalDateTime)
    ensures
        ({
            let ns = ((deadline.day - now.day) * 86_400 + deadline.time.secs - now.time.secs)
                * 1_000_000_000 + deadline.time.nanos - now.time.nanos;
            let s = now.until(deadline);
            &&& ns >= 0 ==> s * 1_000_000_000 <= ns < (s + 1) * 1_000_000_000
            &&& ns < 0 ==> (s - 1) * 1_000_000_000 < ns <= s * 1_000_000_000
        }),
{
    let ns = deadline.nanos() - now.nanos();
    assert(ns == ((deadline.day - now.day) * 86_400 + deadline.time.secs - now.time.secs)
        * 1_000_000_000 + deadline.time.nanos - now.time.nanos);
}

/// One moment comes before another exactly where its nanoseconds are fewer.
pub proof fn moments_are_ordered_by_their_distance(a: LocalDateTime, b: LocalDateTime)
    requires
        a.time.valid(),
        b.time.valid(),
    ensures
        a.earlier(b) <==> ((b.day - a.day) * 86_400 + b.time.secs - a.time.secs) * 1_000_000_000
            + b.time.nanos - a.time.nanos > 0,
{
}

/// A wait that is not over is looked at again within ten seconds.
pub proof fn waits_are_looked_at_every_ten_seconds()
    ensures
        WAIT_SLICE_SECS == 10,
{
}

} // verus!
