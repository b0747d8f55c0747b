//! The one row of five-minute candles that the strategy reads.

use crate::candles::{
    aggregate_completed_bars, bars_of, bars_sum_up_their_spans, completed_bars, cut_at, is_complete,
    or_range, range_in, sums_up, total_volume, well_timed,
};
use crate::clock::TimeOfDay;
use crate::runner_state::AvailableOrStage;
use crate::text::{all_digits, chars_of, digits_value, parse_u32, unsigned_value, without_plus};
use crate::types::MinuteCandle;
use vstd::prelude::*;

verus! {

/// A complete candle as the feed delivers it.  `time` reads `HH:MM`.
#[derive(Debug, Clone)]
pub struct CompletedCandle {
    pub time: String,
    pub open: i64,
    pub high: i64,
    pub low: i64,
    pub close: i64,
    pub volume: u64,
    pub is_realtime: bool,
    pub interval_min: u32,
}

/// What stands before the first colon.
pub open spec fn before_colon(s: Seq<char>) -> Seq<char>
    decreases s.len(),
{
    if s.len() == 0 || s[0] == ':' {
        Seq::empty()
    } else {
        seq![s[0]] + before_colon(s.drop_first())
    }
}

/// What stands behind the first colon, if there is one.
pub open spec fn behind_colon(s: Seq<char>) -> Option<Seq<char>>
    decreases s.len(),
{
    if s.len() == 0 {
        None
    } else if s[0] == ':' {
        Some(s.drop_first())
    } else {
        behind_colon(s.drop_first())
    }
}

/// The numbers before and behind the first colon.  What follows a second colon is ignored.
pub open spec fn clock_numbers(s: Seq<char>) -> (Option<int>, Option<int>) {
    (
        unsigned_value(before_colon(s), u32::MAX as int),
        match behind_colon(s) {
            Some(rest) => unsigned_value(before_colon(rest), u32::MAX as int),
            None => None,
        },
    )
}

/// The time of day that a text names.  A number that cannot be read counts as zero if `lenient`,
/// and makes the text name no time otherwise.
pub open spec fn clock_time(s: Seq<char>, lenient: bool) -> Option<TimeOfDay> {
    match clock_numbers(s) {
        (Some(h), Some(m)) => TimeOfDay::at(h as u32, m as u32, 0),
        (h, m) => if lenient {
            TimeOfDay::at(
                match h {
                    Some(v) => v as u32,
                    None => 0,
                },
                match m {
                    Some(v) => v as u32,
                    None => 0,
                },
                0,
            )
        } else {
            None
        },
    }
}

/// The place of the first colon from `from` on, or the end.
fn colon_from(c: &Vec<char>, from: usize) -> (r: usize)
    requires
        from <= c.len(),
    ensures
        from <= r <= c.len(),
        before_colon(c@.subrange(from as int, c@.len() as int)) == c@.subrange(
            from as int,
            r as int,
        ),
        behind_colon(c@.subrange(from as int, c@.len() as int)) == (if r < c.len() {
            Some(c@.subrange(r + 1, c@.len() as int))
        } else {
            None
        }),
    decreases c.len() - from,
{
    let ghost s = c@.subrange(from as int, c@.len() as int);
    if from == c.len() {
        assert(s =~= Seq::<char>::empty());
        assert(c@.subrange(from as int, from as int) =~= Seq::<char>::empty());
        return from;
    }
    assert(s.drop_first() =~= c@.subrange(from + 1, c@.len() as int));
    if c[from] == ':' {
        assert(c@.subrange(from as int, from as int) =~= Seq::<char>::empty());
        return from;
    }
    let r: usize = colon_from(c, from + 1);
    assert(seq![s[0]] + c@.subrange(from + 1, r as int) =~= c@.subrange(from as int, r as int));
    r
}

fn slice_of(c: &Vec<char>, from: usize, to: usize) -> (r: Vec<char>)
    requires
        from <= to <= c.len(),
    ensures
        r@ == c@.subrange(from as int, to as int),
{
    let mut out: Vec<char> = Vec::new();
    let mut i: usize = from;
    while i < to
        invariant
            from <= i <= to <= c.len(),
            out@ == c@.subrange(from as int, i as int),
        decreases to - i,
    {
        out.push(c[i]);
        i = i + 1;
        assert(out@ =~= c@.subrange(from as int, i as int));
    }
    out
}

/// The time of day that a text names.
pub fn parse_clock(s: &str, lenient: bool) -> (r: Option<TimeOfDay>)
    ensures
        r == clock_time(s@, lenient),
        r matches Some(t) ==> t.valid(),
{
    let c: Vec<char> = chars_of(s);
    let n: usize = c.len();
    let first: usize = colon_from(&c, 0);
    proof {
        assert(c@.subrange(0, n as int) =~= c@);
    }
    let head: Vec<char> = slice_of(&c, 0, first);
    let h: Option<u32> = parse_u32(&head);
    let m: Option<u32> = if first < n {
        let second: usize = colon_from(&c, first + 1);
        let tail: Vec<char> = slice_of(&c, first + 1, second);
        parse_u32(&tail)
    } else {
        None
    };
    match (h, m) {
        (Some(h), Some(m)) => TimeOfDay::from_hms_opt(h, m, 0),
        (h, m) => {
            if lenient {
                TimeOfDay::from_hms_opt(
                    match h {
                        Some(v) => v,
                        None => 0,
                    },
                    match m {
                        Some(v) => v,
                        None => 0,
                    },
                    0,
                )
            } else {
                None
            }
        },
    }
}

/// Which of the feed's candles are wanted.
#[derive(Debug, Clone, Copy, PartialEq, Eq, Structural)]
pub enum BarSet {
    All,
    /// Those that were made of live prices.
    Realtime,
    /// Those of five minutes, which come from elsewhere afterwards.
    FiveMinute,
    /// All others.
    Shorter,
}

impl BarSet {
    /// Whether a candle is wanted.
    pub open spec fn wants(self, c: CompletedCandle) -> bool {
        match self {
            BarSet::All => true,
            BarSet::Realtime => c.is_realtime,
            BarSet::FiveMinute => c.interval_min == 5,
            BarSet::Shorter => c.interval_min != 5,
        }
    }
}

/// The wanted candles whose time can be read, as candles of one day.
pub open spec fn picked(
    bars: Seq<CompletedCandle>,
    day: i32,
    set: BarSet,
    lenient: bool,
) -> Seq<MinuteCandle>
    decreases bars.len(),
{
    if bars.len() == 0 {
        Seq::empty()
    } else {
        let before = picked(bars.drop_last(), day, set, lenient);
        let c = bars.last();
        match clock_time(c.time@, lenient) {
            Some(time) if set.wants(c) => before.push(
                MinuteCandle {
                    day,
                    time,
                    open: c.open,
                    high: c.high,
                    low: c.low,
                    close: c.close,
                    volume: c.volume,
                },
            ),
            _ => before,
        }
    }
}

/// The wanted candles whose time can be read, as candles of one day.
pub fn pick_bars(
    bars: &Vec<CompletedCandle>,
    day: i32,
    set: BarSet,
    lenient: bool,
) -> (r: Vec<MinuteCandle>)
    ensures
        r@ == picked(bars@, day, set, lenient),
        well_timed(r@),
{
    let mut out: Vec<MinuteCandle> = Vec::new();
    let mut i: usize = 0;
    while i < bars.len()
        invariant
            i <= bars.len(),
            out@ == picked(bars@.take(i as int), day, set, lenient),
            well_timed(out@),
        decreases bars.len() - i,
    {
        let c: &CompletedCandle = &bars[i];
        proof {
            assert(bars@.take(i + 1).drop_last() =~= bars@.take(i as int));
        }
        let wanted: bool = match set {
            BarSet::All => true,
            BarSet::Realtime => c.is_realtime,
            BarSet::FiveMinute => c.interval_min == 5,
            BarSet::Shorter => c.interval_min != 5,
        };
        if let Some(time) = parse_clock(c.time.as_str(), lenient) {
            if wanted {
                out.push(
                    MinuteCandle {
                        day,
                        time,
                        open: c.open,
                        high: c.high,
                        low: c.low,
                        close: c.close,
                        volume: c.volume,
                    },
                );
            }
        }
        i = i + 1;
    }
    proof {
        assert(bars@.take(i as int) =~= bars@);
    }
    out
}

/// The feed's candles, all of them and those made of live prices.
pub fn split_candles(bars: &Vec<CompletedCandle>, day: i32) -> (r: (
    Vec<MinuteCandle>,
    Vec<MinuteCandle>,
))
    ensures
        r.0@ == picked(bars@, day, BarSet::All, true),
        r.1@ == picked(bars@, day, BarSet::Realtime, true),
{
    (pick_bars(bars, day, BarSet::All, true), pick_bars(bars, day, BarSet::Realtime, true))
}

/// The feed's candles, without those whose time cannot be read.
pub fn cached_candles(bars: &Vec<CompletedCandle>, day: i32) -> (r: Vec<MinuteCandle>)
    ensures
        r@ == picked(bars@, day, BarSet::All, false),
{
    pick_bars(bars, day, BarSet::All, false)
}

/// The complete five-minute candles that were delivered as such, by time; the last one delivered
/// for a time counts.
pub open spec fn delivered(s: Seq<MinuteCandle>, now: TimeOfDay) -> Map<TimeOfDay, MinuteCandle>
    decreases s.len(),
{
    if s.len() == 0 {
        Map::empty()
    } else {
        let before = delivered(s.drop_last(), now);
        if is_complete(s.last().time, 5, now) {
            before.insert(s.last().time, s.last())
        } else {
            before
        }
    }
}

/// Gaps filled from another row; the first one for a time counts.
pub open spec fn filled_from(m: Map<TimeOfDay, MinuteCandle>, s: Seq<MinuteCandle>) -> Map<
    TimeOfDay,
    MinuteCandle,
>
    decreases s.len(),
{
    if s.len() == 0 {
        m
    } else {
        let before = filled_from(m, s.drop_last());
        if before.contains_key(s.last().time) {
            before
        } else {
            before.insert(s.last().time, s.last())
        }
    }
}

/// A row of candles lists a map: by time, each time once, with the candle that the map gives.
pub open spec fn lists(r: Seq<MinuteCandle>, m: Map<TimeOfDay, MinuteCandle>) -> bool {
    &&& forall|i: int, j: int|
        0 <= i < j < r.len() ==> (#[trigger] r[i]).time.earlier((#[trigger] r[j]).time)
    &&& forall|i: int|
        0 <= i < r.len() ==> m.contains_key((#[trigger] r[i]).time) && m[r[i].time] == r[i]
    &&& forall|t: TimeOfDay| #[trigger] m.contains_key(t) ==> stands_at(r, t)
}

/// A candle of that time is in the row.
pub open spec fn stands_at(r: Seq<MinuteCandle>, t: TimeOfDay) -> bool {
    exists|i: int| 0 <= i < r.len() && (#[trigger] r[i]).time == t
}

/// Puts a candle into a row that lists a map.  A candle already there for its time stays unless
/// `replace`.
fn put(out: &mut Vec<MinuteCandle>, c: MinuteCandle, replace: bool, Ghost(m): Ghost<
    Map<TimeOfDay, MinuteCandle>,
>)
    requires
        lists(old(out)@, m),
    ensures
        lists(
            final(out)@,
            if replace || !m.contains_key(c.time) {
                m.insert(c.time, c)
            } else {
                m
            },
        ),
{
    let ghost r0 = out@;
    let mut k: usize = 0;
    while k < out.len() && out[k].time.is_before(c.time)
        invariant
            k <= out.len(),
            out@ == r0,
            forall|i: int| 0 <= i < k ==> (#[trigger] r0[i]).time.earlier(c.time),
        decreases out.len() - k,
    {
        k = k + 1;
    }
    if k < out.len() && out[k].time == c.time {
        assert(m.contains_key(c.time));
        if replace {
            out.set(k, c);
            let ghost m1 = m.insert(c.time, c);
            assert forall|t: TimeOfDay| #[trigger] m1.contains_key(t) implies stands_at(out@, t) by {
                if t == c.time {
                    assert(out@[k as int].time == t);
                } else {
                    assert(m.contains_key(t));
                    let i = choose|i: int| 0 <= i < r0.len() && (#[trigger] r0[i]).time == t;
                    assert(out@[i].time == t);
                }
            }
        }
    } else {
        proof {
            if m.contains_key(c.time) {
                assert(stands_at(r0, c.time));
                let i = choose|i: int| 0 <= i < r0.len() && (#[trigger] r0[i]).time == c.time;
                assert(i >= k);
                assert(r0[k as int].time == r0[k as int].time);
            }
        }
        out.insert(k, c);
        let ghost m1 = m.insert(c.time, c);
        assert forall|i: int| 0 <= i < out@.len() implies m1.contains_key((#[trigger] out@[i]).time)
            && m1[out@[i].time] == out@[i] by {
            if i < k {
                assert(out@[i] == r0[i]);
            } else if i > k {
                assert(out@[i] == r0[i - 1]);
            }
        }
        assert forall|t: TimeOfDay| #[trigger] m1.contains_key(t) implies stands_at(out@, t) by {
            if t == c.time {
                assert(out@[k as int].time == t);
            } else {
                assert(m.contains_key(t));
                let i = choose|i: int| 0 <= i < r0.len() && (#[trigger] r0[i]).time == t;
                if i < k {
                    assert(out@[i].time == t);
                } else {
                    assert(out@[i + 1].time == t);
                }
            }
        }
        assert forall|i: int, j: int| 0 <= i < j < out@.len() implies (
        #[trigger] out@[i]).time.earlier((#[trigger] out@[j]).time) by {
            let a = if i < k {
                i
            } else {
                i - 1
            };
            let b = if j < k {
                j
            } else {
                j - 1
            };
            if i != k {
                assert(out@[i] == r0[a]);
            }
            if j != k {
                assert(out@[j] == r0[b]);
            }
            if i == k {
                assert(r0[k as int].time == r0[k as int].time);
            }
        }
    }
}

/// One row of five-minute candles: those that were delivered complete, and where there is none
/// for a time, the one made of the feed's own candles.
pub fn merge_canonical(
    backfill: &Vec<MinuteCandle>,
    own: &Vec<MinuteCandle>,
    now: TimeOfDay,
) -> (r: Vec<MinuteCandle>)
    requires
        well_timed(backfill@),
    ensures
        lists(r@, filled_from(delivered(backfill@, now), own@)),
{
    let mut out: Vec<MinuteCandle> = Vec::new();
    let mut i: usize = 0;
    while i < backfill.len()
        invariant
            i <= backfill.len(),
            well_timed(backfill@),
            lists(out@, delivered(backfill@.take(i as int), now)),
        decreases backfill.len() - i,
    {
        let b: MinuteCandle = backfill[i];
        proof {
            assert(backfill@.take(i + 1).drop_last() =~= backfill@.take(i as int));
        }
        let end: TimeOfDay = b.time.plus_minutes(5);
        if !now.is_before(end) {
            put(&mut out, b, true, Ghost(delivered(backfill@.take(i as int), now)));
        }
        i = i + 1;
    }
    proof {
        assert(backfill@.take(i as int) =~= backfill@);
        assert(own@.take(0) =~= Seq::<MinuteCandle>::empty());
    }
    let ghost base = delivered(backfill@, now);
    let mut j: usize = 0;
    while j < own.len()
        invariant
            j <= own.len(),
            lists(out@, filled_from(base, own@.take(j as int))),
        decreases own.len() - j,
    {
        let w: MinuteCandle = own[j];
        proof {
            assert(own@.take(j + 1).drop_last() =~= own@.take(j as int));
        }
        put(&mut out, w, false, Ghost(filled_from(base, own@.take(j as int))));
        j = j + 1;
    }
    proof {
        assert(own@.take(j as int) =~= own@);
    }
    out
}

/// The one row of five-minute candles that the strategy reads, by time.
pub open spec fn canonical_map(bars: Seq<CompletedCandle>, day: i32, now: TimeOfDay) -> Map<
    TimeOfDay,
    MinuteCandle,
> {
    filled_from(
        delivered(picked(bars, day, BarSet::FiveMinute, true), now),
        completed_bars(picked(bars, day, BarSet::Shorter, true), 5, now),
    )
}

/// The one row of five-minute candles that the strategy reads.
pub fn canonical_candles(bars: &Vec<CompletedCandle>, day: i32, now: TimeOfDay) -> (r: Vec<
    MinuteCandle,
>)
    requires
        total_volume(picked(bars@, day, BarSet::Shorter, true)) <= u64::MAX,
    ensures
        lists(r@, canonical_map(bars@, day, now)),
{
    let shorter: Vec<MinuteCandle> = pick_bars(bars, day, BarSet::Shorter, true);
    let backfill: Vec<MinuteCandle> = pick_bars(bars, day, BarSet::FiveMinute, true);
    let own: Vec<MinuteCandle> = aggregate_completed_bars(&shorter, 5, now);
    merge_canonical(&backfill, &own, now)
}

/// A map is listed in only one way.
pub proof fn listing_is_unique(
    a: Seq<MinuteCandle>,
    b: Seq<MinuteCandle>,
    m: Map<TimeOfDay, MinuteCandle>,
)
    requires
        lists(a, m),
        lists(b, m),
    ensures
        a == b,
    decreases a.len(),
{
    if a.len() == 0 {
        if b.len() > 0 {
            assert(m.contains_key(b[0].time));
            assert(stands_at(a, b[0].time));
        }
        assert(a =~= b);
    } else {
        assert(m.contains_key(a[0].time));
        assert(stands_at(b, a[0].time));
        let x = a.last();
        assert(m.contains_key(a[a.len() - 1].time));
        assert(stands_at(b, x.time));
        let i = choose|i: int| 0 <= i < b.len() && (#[trigger] b[i]).time == x.time;
        assert(b[i] == x);
        let y = b.last();
        assert(m.contains_key(b[b.len() - 1].time));
        assert(stands_at(a, y.time));
        let j = choose|j: int| 0 <= j < a.len() && (#[trigger] a[j]).time == y.time;
        assert(a[j] == y);
        if i < b.len() - 1 {
            assert(b[i].time.earlier(b[b.len() - 1].time));
            if j < a.len() - 1 {
                assert(a[j].time.earlier(a[a.len() - 1].time));
            }
            assert(false);
        }
        assert(x == y);
        let m1 = m.remove(x.time);
        let a1 = a.drop_last();
        let b1 = b.drop_last();
        assert forall|t: TimeOfDay| #[trigger] m1.contains_key(t) implies stands_at(a1, t)
            && stands_at(b1, t) by {
            assert(m.contains_key(t));
            let p = choose|p: int| 0 <= p < a.len() && (#[trigger] a[p]).time == t;
            assert(a1[p].time == t);
            let q = choose|q: int| 0 <= q < b.len() && (#[trigger] b[q]).time == t;
            assert(b1[q].time == t);
        }
        assert forall|p: int| 0 <= p < a1.len() implies m1.contains_key((#[trigger] a1[p]).time)
            && m1[a1[p].time] == a1[p] by {
            assert(a[p].time.earlier(a[a.len() - 1].time));
        }
        assert forall|q: int| 0 <= q < b1.len() implies m1.contains_key((#[trigger] b1[q]).time)
            && m1[b1[q].time] == b1[q] by {
            assert(b[q].time.earlier(b[b.len() - 1].time));
        }
        listing_is_unique(a1, b1, m1);
        assert(a =~= a1.push(x));
        assert(b =~= b1.push(x));
    }
}

/// A stage of the opening range, where it is over and its range is known: from the candles, else
/// as stored.
pub open spec fn stage_part(
    candles: Seq<MinuteCandle>,
    name: &'static str,
    start: TimeOfDay,
    end: TimeOfDay,
    now: TimeOfDay,
    stored: Option<(i64, i64)>,
) -> Seq<AvailableOrStage> {
    if now.earlier(end) {
        Seq::empty()
    } else {
        match (range_in(candles, start, end), stored) {
            (Some((h, l)), _) => seq![(name, h, l, end)],
            (None, Some((h, l))) => seq![(name, h, l, end)],
            (None, None) => Seq::empty(),
        }
    }
}

/// The stored ranges of the three stages.
#[derive(Debug, Clone, Copy)]
pub struct StoredStages {
    pub five: Option<(i64, i64)>,
    pub fifteen: Option<(i64, i64)>,
    pub thirty: Option<(i64, i64)>,
}

/// The stages of the opening range that are available.
pub open spec fn stages_at(
    candles: Seq<MinuteCandle>,
    start: TimeOfDay,
    now: TimeOfDay,
    stored: StoredStages,
) -> Seq<AvailableOrStage> {
    stage_part(candles, "5m", start, TimeOfDay { secs: 32_700, nanos: 0 }, now, stored.five)
        + stage_part(candles, "15m", start, TimeOfDay { secs: 33_300, nanos: 0 }, now, stored.fifteen)
        + stage_part(candles, "30m", start, TimeOfDay { secs: 34_200, nanos: 0 }, now, stored.thirty)
}

fn push_stage(
    out: &mut Vec<AvailableOrStage>,
    candles: &Vec<MinuteCandle>,
    name: &'static str,
    start: TimeOfDay,
    end: Option<TimeOfDay>,
    now: TimeOfDay,
    stored: Option<(i64, i64)>,
)
    requires
        end is Some,
    ensures
        final(out)@ == old(out)@ + stage_part(candles@, name, start, end->0, now, stored),
{
    let ghost before = out@;
    let end: TimeOfDay = end.unwrap();
    if !now.is_before(end) {
        let range: Option<(i64, i64)> = match or_range(candles, start, end) {
            Some(r) => Some(r),
            None => stored,
        };
        if let Some((h, l)) = range {
            out.push((name, h, l, end));
        }
    }
    assert(out@ =~= before + stage_part(candles@, name, start, end, now, stored));
}

/// The stages of the opening range that are available: of five, fifteen and thirty minutes, each
/// from the moment it is over.
pub fn available_or_stages(
    candles: &Vec<MinuteCandle>,
    or_start: TimeOfDay,
    now: TimeOfDay,
    stored: StoredStages,
) -> (r: Vec<AvailableOrStage>)
    ensures
        r@ == stages_at(candles@, or_start, now, stored),
{
    let mut out: Vec<AvailableOrStage> = Vec::new();
    push_stage(
        &mut out,
        candles,
        "5m",
        or_start,
        TimeOfDay::from_hms_opt(9, 5, 0),
        now,
        stored.five,
    );
    push_stage(
        &mut out,
        candles,
        "15m",
        or_start,
        TimeOfDay::from_hms_opt(9, 15, 0),
        now,
        stored.fifteen,
    );
    push_stage(
        &mut out,
        candles,
        "30m",
        or_start,
        TimeOfDay::from_hms_opt(9, 30, 0),
        now,
        stored.thirty,
    );
    assert(out@ =~= stages_at(candles@, or_start, now, stored));
    out
}

/// A candle of the row is one of the feed's: of the day, at the time that it names, with its
/// prices and its volume.
pub open spec fn comes_from(
    m: MinuteCandle,
    c: CompletedCandle,
    day: i32,
    lenient: bool,
) -> bool {
    &&& clock_time(c.time@, lenient) == Some(m.time)
    &&& m.day == day
    &&& m.open == c.open
    &&& m.high == c.high
    &&& m.low == c.low
    &&& m.close == c.close
    &&& m.volume == c.volume
}

/// A candle of the feed is wanted and its time can be read.
pub open spec fn pickable(c: CompletedCandle, set: BarSet, lenient: bool) -> bool {
    &&& clock_time(c.time@, lenient) is Some
    &&& match set {
        BarSet::All => true,
        BarSet::Realtime => c.is_realtime,
        BarSet::FiveMinute => c.interval_min == 5,
        BarSet::Shorter => c.interval_min != 5,
    }
}

/// The row consists of the feed's candles at these places, in the same order, and those are all
/// the wanted ones.
pub open spec fn picked_at(
    row: Seq<MinuteCandle>,
    bars: Seq<CompletedCandle>,
    places: Seq<int>,
    day: i32,
    set: BarSet,
    lenient: bool,
) -> bool {
    &&& places.len() == row.len()
    &&& forall|k: int|
        0 <= k < row.len() ==> {
            &&& 0 <= #[trigger] places[k] < bars.len()
            &&& pickable(bars[places[k]], set, lenient)
            &&& comes_from(row[k], bars[places[k]], day, lenient)
        }
    &&& forall|k: int, l: int|
        0 <= k < l < row.len() ==> #[trigger] places[k] < #[trigger] places[l]
    &&& forall|i: int|
        0 <= i < bars.len() && pickable(#[trigger] bars[i], set, lenient) ==> places.contains(i)
}

/// Picking leaves every wanted candle of the feed as it is, and leaves out the others.
pub proof fn picked_candles_are_the_feeds(
    bars: Seq<CompletedCandle>,
    day: i32,
    set: BarSet,
    lenient: bool,
)
    ensures
        exists|places: Seq<int>| #[trigger]
            picked_at(picked(bars, day, set, lenient), bars, places, day, set, lenient),
    decreases bars.len(),
{
    let row = picked(bars, day, set, lenient);
    if bars.len() == 0 {
        assert(picked_at(row, bars, Seq::empty(), day, set, lenient));
    } else {
        let head = bars.drop_last();
        let n = bars.len() - 1;
        picked_candles_are_the_feeds(head, day, set, lenient);
        let before = picked(head, day, set, lenient);
        let places = choose|places: Seq<int>| #[trigger]
            picked_at(before, head, places, day, set, lenient);
        assert forall|k: int| 0 <= k < before.len() implies bars[#[trigger] places[k]]
            == head[places[k]] by {}
        assert(bars[n] == bars.last());
        if pickable(bars[n], set, lenient) {
            let more = places.push(n);
            assert forall|i: int|
                0 <= i < bars.len() && pickable(#[trigger] bars[i], set, lenient) implies
                more.contains(i) by {
                if i < n {
                    assert(head[i] == bars[i]);
                    let k = choose|k: int| 0 <= k < places.len() && places[k] == i;
                    assert(more[k] == i);
                } else {
                    assert(more[places.len() as int] == i);
                }
            }
            assert(picked_at(row, bars, more, day, set, lenient));
        } else {
            assert forall|i: int|
                0 <= i < bars.len() && pickable(#[trigger] bars[i], set, lenient) implies
                places.contains(i) by {
                assert(head[i] == bars[i]);
            }
            assert(row == before);
            assert(picked_at(row, bars, places, day, set, lenient));
        }
    }
}

/// A text of two digits, a colon and two digits names the hour and the minute that it spells.
pub proof fn clock_reads_hours_and_minutes(s: Seq<char>, lenient: bool)
    requires
        s.len() == 5,
        s[2] == ':',
        '0' <= s[0] <= '9',
        '0' <= s[1] <= '9',
        '0' <= s[3] <= '9',
        '0' <= s[4] <= '9',
    ensures
        ({
            let h = (s[0] as int - 48) * 10 + (s[1] as int - 48);
            let m = (s[3] as int - 48) * 10 + (s[4] as int - 48);
            match clock_time(s, lenient) {
                Some(t) => h < 24 && m < 60 && t.secs == h * 3600 + m * 60 && t.nanos == 0,
                None => h >= 24 || m >= 60,
            }
        }),
{
    reveal_with_fuel(before_colon, 4);
    reveal_with_fuel(behind_colon, 4);
    reveal_with_fuel(digits_value, 4);
    let a = before_colon(s);
    assert(s.drop_first().drop_first()[0] == ':');
    assert(a =~= seq![s[0], s[1]]);
    assert(behind_colon(s) == Some(s.drop_first().drop_first().drop_first()));
    let rest = behind_colon(s)->0;
    assert(rest =~= seq![s[3], s[4]]);
    let b = before_colon(rest);
    assert(b =~= seq![s[3], s[4]]);
    assert(without_plus(a) == a && without_plus(b) == b);
    assert(all_digits(a) && all_digits(b));
    assert(a.drop_last() =~= seq![s[0]] && b.drop_last() =~= seq![s[3]]);
    assert(seq![s[0]].drop_last() =~= Seq::<char>::empty());
    assert(seq![s[3]].drop_last() =~= Seq::<char>::empty());
}

/// A five-minute candle is over.
pub open spec fn five_over(c: MinuteCandle, now: TimeOfDay) -> bool {
    let end = (c.time.secs + 300) % 86_400;
    now.secs > end || (now.secs == end && now.nanos >= c.time.nanos)
}

/// The last complete candle that was delivered for a time stands at place `i`.
pub open spec fn last_delivered(
    s: Seq<MinuteCandle>,
    now: TimeOfDay,
    t: TimeOfDay,
    i: int,
) -> bool {
    &&& 0 <= i < s.len()
    &&& s[i].time == t
    &&& five_over(s[i], now)
    &&& forall|j: int| i < j < s.len() && (#[trigger] s[j]).time == t ==> !five_over(s[j], now)
}

/// The first candle of a row for a time stands at place `i`.
pub open spec fn first_at(s: Seq<MinuteCandle>, t: TimeOfDay, i: int) -> bool {
    &&& 0 <= i < s.len()
    &&& s[i].time == t
    &&& forall|j: int| 0 <= j < i ==> (#[trigger] s[j]).time != t
}

proof fn delivered_is_the_last(s: Seq<MinuteCandle>, now: TimeOfDay, t: TimeOfDay)
    requires
        well_timed(s),
    ensures
        delivered(s, now).contains_key(t) ==> exists|i: int| #[trigger]
            last_delivered(s, now, t, i) && delivered(s, now)[t] == s[i],
        !delivered(s, now).contains_key(t) ==> forall|i: int|
            0 <= i < s.len() && (#[trigger] s[i]).time == t ==> !five_over(s[i], now),
    decreases s.len(),
{
    if s.len() > 0 {
        let head = s.drop_last();
        let n = s.len() - 1;
        assert(well_timed(head)) by {
            assert forall|i: int| 0 <= i < head.len() implies (#[trigger] head[i]).time.valid() by {
                assert(s[i].time.valid());
            }
        }
        delivered_is_the_last(head, now, t);
        assert(s[n].time.valid());
        assert(is_complete(s[n].time, 5, now) == five_over(s[n], now));
        assert forall|i: int| 0 <= i < n implies #[trigger] s[i] == head[i] by {}
        if s[n].time == t && five_over(s[n], now) {
            assert(last_delivered(s, now, t, n));
        } else if delivered(head, now).contains_key(t) {
            let i = choose|i: int| #[trigger]
                last_delivered(head, now, t, i) && delivered(head, now)[t] == head[i];
            assert(last_delivered(s, now, t, i));
        }
    }
}

proof fn filling_keeps_what_was_there(
    m: Map<TimeOfDay, MinuteCandle>,
    own: Seq<MinuteCandle>,
    t: TimeOfDay,
)
    ensures
        m.contains_key(t) ==> filled_from(m, own).contains_key(t) && filled_from(m, own)[t] == m[t],
        !m.contains_key(t) && filled_from(m, own).contains_key(t) ==> exists|i: int| #[trigger]
            first_at(own, t, i) && filled_from(m, own)[t] == own[i],
        !filled_from(m, own).contains_key(t) ==> forall|i: int|
            0 <= i < own.len() ==> (#[trigger] own[i]).time != t,
    decreases own.len(),
{
    if own.len() > 0 {
        let head = own.drop_last();
        let n = own.len() - 1;
        filling_keeps_what_was_there(m, head, t);
        assert forall|i: int| 0 <= i < n implies #[trigger] own[i] == head[i] by {}
        if filled_from(m, head).contains_key(t) {
            if !m.contains_key(t) {
                let i = choose|i: int| #[trigger]
                    first_at(head, t, i) && filled_from(m, head)[t] == head[i];
                assert(first_at(own, t, i));
            }
        } else if own[n].time == t {
            assert(first_at(own, t, n));
        }
    }
}

/// For every time, the canonical row has the last complete five-minute candle that was delivered
/// for it; where none was, the candle made of the feed's own, if there is one; and no other.
pub proof fn delivered_candles_go_first(
    backfill: Seq<MinuteCandle>,
    own: Seq<MinuteCandle>,
    now: TimeOfDay,
    t: TimeOfDay,
)
    requires
        well_timed(backfill),
    ensures
        ({
            let m = filled_from(delivered(backfill, now), own);
            let delivered_for = exists|i: int|
                0 <= i < backfill.len() && (#[trigger] backfill[i]).time == t && five_over(
                    backfill[i],
                    now,
                );
            let made_for = exists|i: int| 0 <= i < own.len() && (#[trigger] own[i]).time == t;
            &&& m.contains_key(t) <==> delivered_for || made_for
            &&& delivered_for ==> exists|i: int| #[trigger]
                last_delivered(backfill, now, t, i) && m[t] == backfill[i]
            &&& !delivered_for && made_for ==> exists|i: int| #[trigger]
                first_at(own, t, i) && m[t] == own[i]
        }),
{
    let base = delivered(backfill, now);
    delivered_is_the_last(backfill, now, t);
    filling_keeps_what_was_there(base, own, t);
    if base.contains_key(t) {
        let i = choose|i: int| #[trigger] last_delivered(backfill, now, t, i) && base[t]
            == backfill[i];
        assert(backfill[i].time == t && five_over(backfill[i], now));
    } else if filled_from(base, own).contains_key(t) {
        let i = choose|i: int| #[trigger] first_at(own, t, i) && filled_from(base, own)[t] == own[i];
        assert(own[i].time == t);
    }
}

/// The feed delivered a five-minute candle for a time, and it is over.
pub open spec fn delivers(c: CompletedCandle, t: TimeOfDay, now: TimeOfDay) -> bool {
    let end = (t.secs + 300) % 86_400;
    &&& c.interval_min == 5
    &&& clock_time(c.time@, true) == Some(t)
    &&& now.secs > end || (now.secs == end && now.nanos >= t.nanos)
}

/// The canonical candle of a time is the last complete five-minute candle that the feed delivered
/// for it, with its prices and volume; where there is none, it sums up the feed's shorter candles
/// of the five minutes from then on.
pub proof fn canonical_row_reads_the_feed(
    bars: Seq<CompletedCandle>,
    day: i32,
    now: TimeOfDay,
    t: TimeOfDay,
)
    requires
        total_volume(picked(bars, day, BarSet::Shorter, true)) <= u64::MAX,
        well_timed(picked(bars, day, BarSet::FiveMinute, true)),
    ensures
        ({
            let m = canonical_map(bars, day, now);
            let is_delivered = exists|i: int|
                0 <= i < bars.len() && delivers(#[trigger] bars[i], t, now);
            &&& is_delivered ==> m.contains_key(t) && exists|i: int|
                0 <= i < bars.len() && delivers(#[trigger] bars[i], t, now) && comes_from(
                    m[t],
                    bars[i],
                    day,
                    true,
                ) && forall|j: int| i < j < bars.len() ==> !delivers(#[trigger] bars[j], t, now)
            &&& !is_delivered && m.contains_key(t) ==> m[t].time == t && exists|i: int, j: int|
                #[trigger]
                sums_up(m[t], picked(bars, day, BarSet::Shorter, true), i, j, 5)
        }),
{
    let p = picked(bars, day, BarSet::FiveMinute, true);
    let q = picked(bars, day, BarSet::Shorter, true);
    let own = completed_bars(q, 5, now);
    let m = canonical_map(bars, day, now);
    picked_candles_are_the_feeds(bars, day, BarSet::FiveMinute, true);
    let places = choose|places: Seq<int>| #[trigger]
        picked_at(p, bars, places, day, BarSet::FiveMinute, true);
    delivered_candles_go_first(p, own, now, t);
    if exists|i: int| 0 <= i < bars.len() && delivers(#[trigger] bars[i], t, now) {
        let i = choose|i: int| 0 <= i < bars.len() && delivers(#[trigger] bars[i], t, now);
        assert(pickable(bars[i], BarSet::FiveMinute, true));
        let k = choose|k: int| 0 <= k < places.len() && places[k] == i;
        assert(comes_from(p[k], bars[places[k]], day, true));
        assert(p[k].time == t && five_over(p[k], now));
        let last = choose|l: int| #[trigger] last_delivered(p, now, t, l) && m[t] == p[l];
        let j = places[last];
        assert(comes_from(p[last], bars[j], day, true));
        assert(delivers(bars[j], t, now));
        assert forall|x: int| j < x < bars.len() implies !delivers(#[trigger] bars[x], t, now) by {
            if delivers(bars[x], t, now) {
                assert(pickable(bars[x], BarSet::FiveMinute, true));
                let y = choose|y: int| 0 <= y < places.len() && places[y] == x;
                assert(comes_from(p[y], bars[places[y]], day, true));
                assert(p[y].time == t && five_over(p[y], now));
                if y < last {
                    assert(places[y] < places[last]);
                }
                assert(y > last);
            }
        }
    } else {
        assert forall|k: int| 0 <= k < p.len() && (#[trigger] p[k]).time == t implies !five_over(
            p[k],
            now,
        ) by {
            let x = places[k];
            assert(comes_from(p[k], bars[x], day, true));
            assert(!delivers(bars[x], t, now));
        }
        if m.contains_key(t) {
            let k = choose|k: int| #[trigger] first_at(own, t, k) && m[t] == own[k];
            bars_sum_up_their_spans(q, 5);
            let cuts = choose|cuts: Seq<int>| #[trigger] cut_at(bars_of(q, 5), q, cuts, 5);
            assert(own[k] == bars_of(q, 5)[k]);
            assert(sums_up(m[t], q, cuts[k], cuts[k + 1], 5));
        }
    }
}

/// A row that lists a map comes in order of time, no time twice; it holds the map's candle for
/// each of its times, and every time of the map.
pub proof fn listed_rows_are_in_order(r: Seq<MinuteCandle>, m: Map<TimeOfDay, MinuteCandle>)
    requires
        lists(r, m),
    ensures
        forall|i: int, j: int|
            0 <= i < j < r.len() ==> {
                let a = (#[trigger] r[i]).time;
                let b = (#[trigger] r[j]).time;
                a.secs < b.secs || (a.secs == b.secs && a.nanos < b.nanos)
            },
        forall|i: int| 0 <= i < r.len() ==> m.contains_pair((#[trigger] r[i]).time, r[i]),
        forall|t: TimeOfDay| #[trigger]
            m.contains_key(t) ==> exists|i: int| 0 <= i < r.len() && (#[trigger] r[i]).time == t,
{
    assert forall|t: TimeOfDay| #[trigger] m.contains_key(t) implies exists|i: int|
        0 <= i < r.len() && (#[trigger] r[i]).time == t by {
        assert(stands_at(r, t));
    }
}

/// A stage of the opening range is listed as it should be: with its name and end, from its end
/// on, where its range is known from the candles or else as stored; and only then.
pub open spec fn stage_listed(
    r: Seq<AvailableOrStage>,
    candles: Seq<MinuteCandle>,
    name: &'static str,
    start: TimeOfDay,
    end_secs: u32,
    now: TimeOfDay,
    stored: Option<(i64, i64)>,
) -> bool {
    let end = TimeOfDay { secs: end_secs, nanos: 0 };
    let range = match range_in(candles, start, end) {
        Some(x) => Some(x),
        None => stored,
    };
    match range {
        Some((high, low)) if now.secs >= end_secs => {
            &&& r.contains((name, high, low, end))
            &&& forall|i: int|
                0 <= i < r.len() && (#[trigger] r[i]).3 == end ==> r[i] == (name, high, low, end)
        },
        _ => forall|i: int| 0 <= i < r.len() ==> (#[trigger] r[i]).3 != end,
    }
}

/// The stages of the opening range are those that end at 09:05, 09:15 and 09:30, each of them from
/// that moment on.
pub proof fn stages_come_when_they_are_over(
    candles: Seq<MinuteCandle>,
    start: TimeOfDay,
    now: TimeOfDay,
    stored: StoredStages,
)
    ensures
        ({
            let r = stages_at(candles, start, now, stored);
            &&& stage_listed(r, candles, "5m", start, 32_700, now, stored.five)
            &&& stage_listed(r, candles, "15m", start, 33_300, now, stored.fifteen)
            &&& stage_listed(r, candles, "30m", start, 34_200, now, stored.thirty)
            &&& r.len() <= 3
            &&& forall|i: int, j: int|
                0 <= i < j < r.len() ==> (#[trigger] r[i]).3.secs < (#[trigger] r[j]).3.secs
        }),
{
    let five = stage_part(
        candles,
        "5m",
        start,
        TimeOfDay { secs: 32_700, nanos: 0 },
        now,
        stored.five,
    );
    let fifteen = stage_part(
        candles,
        "15m",
        start,
        TimeOfDay { secs: 33_300, nanos: 0 },
        now,
        stored.fifteen,
    );
    let thirty = stage_part(
        candles,
        "30m",
        start,
        TimeOfDay { secs: 34_200, nanos: 0 },
        now,
        stored.thirty,
    );
    let r = stages_at(candles, start, now, stored);
    if five.len() > 0 {
        assert(r[0] == five[0]);
    }
    if fifteen.len() > 0 {
        assert(r[five.len() as int] == fifteen[0]);
    }
    if thirty.len() > 0 {
        assert(r[(five.len() + fifteen.len()) as int] == thirty[0]);
    }
}

/// What cannot be read of a clock counts as nought where that is allowed, and leaves no time where
/// it is not.
pub proof fn unreadable_clocks_count_as_nought(s: Seq<char>)
    ensures
        ({
            let (h, m) = clock_numbers(s);
            let full = h is Some && m is Some;
            &&& !full ==> clock_time(s, false) is None
            &&& h is None && m is None ==> clock_time(s, true) == Some(
                TimeOfDay { secs: 0, nanos: 0 },
            )
            &&& h is None && m is Some && 0 <= m->0 < 60 ==> clock_time(s, true) is Some
                && clock_time(s, true)->0.secs == m->0 * 60
            &&& h is Some && m is None && 0 <= h->0 < 24 ==> clock_time(s, true) is Some
                && clock_time(s, true)->0.secs == h->0 * 3600
            &&& full ==> clock_time(s, true) == clock_time(s, false)
        }),
{
}

} // verus!
