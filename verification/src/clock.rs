//! Wall-clock values as the trading rules read them.

use crate::text::char_of_digit;
use chrono::{DateTime, Duration, NaiveTime, Timelike};
use vstd::prelude::*;

verus! {

/// Nanoseconds in one second.
pub const NANOS_PER_SEC: u32 = 1_000_000_000;

/// Seconds in one day.
pub const SECS_PER_DAY: u32 = 86_400;

/// A time of day: whole seconds since midnight and the nanoseconds past them.
///
/// Leap seconds have no value of their own.
#[derive(Debug, Clone, Copy, PartialEq, Eq, Structural)]
pub struct TimeOfDay {
    pub secs: u32,
    pub nanos: u32,
}

/// An instant in UTC: whole seconds since the Unix epoch and the nanoseconds past them.
#[derive(Debug, Clone, Copy, PartialEq, Eq, Structural)]
pub struct UtcTime {
    pub secs: i64,
    pub nanos: u32,
}

/// A local calendar day and a time of day on it.  Days are counted from 1 January of year 1,
/// which is day 1.
#[derive(Debug, Clone, Copy, PartialEq, Eq, Structural)]
pub struct LocalDateTime {
    pub day: i32,
    pub time: TimeOfDay,
}

/// The quotient rounded towards zero.
pub open spec fn truncated(numerator: int, denominator: int) -> int {
    if numerator >= 0 {
        numerator / denominator
    } else {
        -((-numerator) / denominator)
    }
}

/// Two decimal digits, the tens first.
pub open spec fn two_digits(n: int) -> Seq<char> {
    seq![char_of_digit(n / 10), char_of_digit(n % 10)]
}

impl TimeOfDay {
    /// A real time of day.
    pub open spec fn valid(self) -> bool {
        self.secs < SECS_PER_DAY && self.nanos < NANOS_PER_SEC
    }

    /// Nanoseconds since midnight.
    pub open spec fn since_midnight(self) -> int {
        self.secs as int * NANOS_PER_SEC as int + self.nanos as int
    }

    /// Strictly earlier in the day.
    pub open spec fn earlier(self, other: TimeOfDay) -> bool {
        self.secs < other.secs || (self.secs == other.secs && self.nanos < other.nanos)
    }

    /// The time of day at a given hour, minute and second, if there is one.
    pub open spec fn at(hour: u32, min: u32, sec: u32) -> Option<TimeOfDay> {
        if hour < 24 && min < 60 && sec < 60 {
            Some(TimeOfDay { secs: (hour * 3600 + min * 60 + sec) as u32, nanos: 0 })
        } else {
            None
        }
    }

    /// The time of day `minutes` later, going round at midnight.
    pub open spec fn later(self, minutes: int) -> TimeOfDay {
        TimeOfDay {
            secs: ((self.secs as int + minutes * 60) % (SECS_PER_DAY as int)) as u32,
            nanos: self.nanos,
        }
    }

    /// `HHMMSS`.
    pub open spec fn compact(self) -> Seq<char> {
        two_digits(self.secs as int / 3600) + two_digits(self.secs as int / 60 % 60) + two_digits(
            self.secs as int % 60,
        )
    }

    /// Whether `self` comes strictly before `other`.
    pub fn is_before(self, other: TimeOfDay) -> (r: bool)
        ensures
            r == self.earlier(other),
    {
        self.secs < other.secs || (self.secs == other.secs && self.nanos < other.nanos)
    }

    /// `chrono::NaiveTime::from_hms_opt`: a time of day exists for every hour below 24, minute
    /// below 60 and second below 60, and for nothing else.
    #[verifier::external_body]
    pub(crate) fn from_hms_opt(hour: u32, min: u32, sec: u32) -> (r: Option<TimeOfDay>)
        ensures
            r == Self::at(hour, min, sec),
    {
        NaiveTime::from_hms_opt(hour, min, sec).map(
            |t| TimeOfDay { secs: t.num_seconds_from_midnight(), nanos: t.nanosecond() },
        )
    }

    /// `chrono::NaiveTime + chrono::Duration::minutes`: whole minutes are added and the sum is
    /// taken modulo one day; the fraction of a second stays.
    #[verifier::external_body]
    pub(crate) fn plus_minutes(self, minutes: u32) -> (r: TimeOfDay)
        requires
            self.valid(),
        ensures
            r == self.later(minutes as int),
            r.valid(),
    {
        let t = NaiveTime::from_num_seconds_from_midnight_opt(self.secs, self.nanos).unwrap()
            + Duration::minutes(minutes as i64);
        TimeOfDay { secs: t.num_seconds_from_midnight(), nanos: t.nanosecond() }
    }

    /// `chrono::NaiveTime::signed_duration_since` and `TimeDelta::num_seconds`: the signed
    /// distance between two times of the same day, in seconds, rounded towards zero.
    #[verifier::external_body]
    pub(crate) fn seconds_since(self, earlier: TimeOfDay) -> (r: i64)
        requires
            self.valid(),
            earlier.valid(),
        ensures
            r == truncated(self.since_midnight() - earlier.since_midnight(), NANOS_PER_SEC as int),
    {
        let a = NaiveTime::from_num_seconds_from_midnight_opt(self.secs, self.nanos).unwrap();
        let b = NaiveTime::from_num_seconds_from_midnight_opt(earlier.secs, earlier.nanos).unwrap();
        a.signed_duration_since(b).num_seconds()
    }

    /// Whole minutes from another time of the same day, rounded towards zero.
    pub open spec fn minutes_from(self, earlier: TimeOfDay) -> int {
        truncated(
            truncated(self.since_midnight() - earlier.since_midnight(), NANOS_PER_SEC as int),
            60,
        )
    }

    /// Whole minutes from another time of the same day, rounded towards zero.
    pub fn minutes_since(self, earlier: TimeOfDay) -> (r: i64)
        requires
            self.valid(),
            earlier.valid(),
        ensures
            r == self.minutes_from(earlier),
    {
        let secs: i64 = self.seconds_since(earlier);
        secs / 60
    }

    /// `chrono::NaiveTime::format` with `%H%M%S`: two digits each of the hour, the minute and
    /// the second.
    #[verifier::external_body]
    pub(crate) fn format_compact(self) -> (r: String)
        requires
            self.valid(),
        ensures
            r@ == self.compact(),
    {
        NaiveTime::from_num_seconds_from_midnight_opt(self.secs, self.nanos).unwrap().format(
            "%H%M%S",
        ).to_string()
    }
}

impl UtcTime {
    /// Within the calendar: from 1 January 262144 BCE to 31 December 262142 CE.
    pub open spec fn valid(self) -> bool {
        -8_334_601_228_800 <= self.secs <= 8_210_266_876_799 && self.nanos < NANOS_PER_SEC
    }

    /// Nanoseconds since the Unix epoch.
    pub open spec fn since_epoch(self) -> int {
        self.secs as int * NANOS_PER_SEC as int + self.nanos as int
    }

    /// Milliseconds from `then` to `now`, rounded towards zero.
    pub open spec fn age(now: UtcTime, then: UtcTime) -> int {
        truncated(now.since_epoch() - then.since_epoch(), 1_000_000)
    }

    /// `chrono::DateTime::signed_duration_since` and `TimeDelta::num_milliseconds`: the signed
    /// distance between two instants in milliseconds, rounded towards zero.
    #[verifier::external_body]
    pub(crate) fn millis_since(self, then: UtcTime) -> (r: i64)
        requires
            self.valid(),
            then.valid(),
        ensures
            r == Self::age(self, then),
    {
        let a = DateTime::from_timestamp(self.secs, self.nanos).unwrap();
        let b = DateTime::from_timestamp(then.secs, then.nanos).unwrap();
        a.signed_duration_since(b).num_milliseconds()
    }
}

/// Exactly one of two times comes first, unless they are the same.
pub proof fn order_is_total(a: TimeOfDay, b: TimeOfDay)
    ensures
        a.earlier(b) || b.earlier(a) || a == b,
        !(a.earlier(b) && b.earlier(a)),
        a.valid() && b.valid() ==> (a.earlier(b) <==> a.since_midnight() < b.since_midnight()),
{
}

/// A quotient that is rounded towards zero leaves a rest that is smaller than the divisor and of
/// the dividend's sign.
pub proof fn rounding_is_towards_zero(n: int, d: int)
    requires
        d > 0,
    ensures
        n >= 0 ==> truncated(n, d) * d <= n < truncated(n, d) * d + d,
        n < 0 ==> truncated(n, d) * d - d < n <= truncated(n, d) * d,
{
    let m = if n >= 0 {
        n
    } else {
        -n
    };
    vstd::arithmetic::div_mod::lemma_fundamental_div_mod(m, d);
    vstd::arithmetic::div_mod::lemma_mod_bound(m, d);
    assert(d * (m / d) == (m / d) * d) by (nonlinear_arith);
    assert((-(m / d)) * d == -((m / d) * d)) by (nonlinear_arith);
}

/// Whole minutes between two times are those that fit between them.
pub proof fn whole_minutes_fit(a: TimeOfDay, b: TimeOfDay)
    requires
        a.valid(),
        b.valid(),
    ensures
        ({
            let ns = (a.secs - b.secs) * 1_000_000_000 + a.nanos - b.nanos;
            let m = a.minutes_from(b);
            &&& ns >= 0 ==> m * 60_000_000_000 <= ns < (m + 1) * 60_000_000_000
            &&& ns < 0 ==> (m - 1) * 60_000_000_000 < ns <= m * 60_000_000_000
        }),
{
    let ns = (a.secs - b.secs) * 1_000_000_000 + a.nanos - b.nanos;
    assert(ns == a.since_midnight() - b.since_midnight());
}

/// One time comes before another exactly where fewer nanoseconds of the day are over.
pub proof fn earlier_is_fewer_nanoseconds(a: TimeOfDay, b: TimeOfDay)
    requires
        a.valid(),
        b.valid(),
    ensures
        a.earlier(b) <==> a.secs * 1_000_000_000 + a.nanos < b.secs * 1_000_000_000 + b.nanos,
{
}

/// The six digits of a time are those of its hours, its minutes and its seconds.
pub proof fn compact_times_read_back(t: TimeOfDay)
    requires
        t.valid(),
    ensures
        t.compact().len() == 6,
        crate::text::all_digits(t.compact()),
        ({
            let h = t.secs as int / 3600;
            let m = t.secs as int / 60 % 60;
            let s = t.secs as int % 60;
            &&& crate::text::digits_value(t.compact()) == h * 10_000 + m * 100 + s
            &&& h * 3600 + m * 60 + s == t.secs
        }),
{
    let h = t.secs as int / 3600;
    let m = t.secs as int / 60 % 60;
    let s = t.secs as int % 60;
    let c = t.compact();
    assert(c =~= seq![
        char_of_digit(h / 10),
        char_of_digit(h % 10),
        char_of_digit(m / 10),
        char_of_digit(m % 10),
        char_of_digit(s / 10),
        char_of_digit(s % 10),
    ]);
    assert forall|d: int| 0 <= d <= 9 implies crate::text::is_digit(#[trigger] char_of_digit(d))
        && crate::text::digit_of(char_of_digit(d)) == d by {}
    let c5 = c.drop_last();
    let c4 = c5.drop_last();
    let c3 = c4.drop_last();
    let c2 = c3.drop_last();
    let c1 = c2.drop_last();
    let c0 = c1.drop_last();
    assert(c0.len() == 0);
    assert(crate::text::digits_value(c0) == 0);
    assert(crate::text::digits_value(c1) == h / 10);
    assert(crate::text::digits_value(c2) == h);
    assert(crate::text::digits_value(c3) == h * 10 + m / 10);
    assert(crate::text::digits_value(c4) == h * 100 + m);
    assert(crate::text::digits_value(c5) == h * 1_000 + m * 10 + s / 10);
    assert(crate::text::digits_value(c) == h * 10_000 + m * 100 + s);
}

} // verus!
