//! Candles: longer ones made of shorter ones, and the opening range.

use crate::clock::TimeOfDay;
use crate::types::MinuteCandle;
use vstd::prelude::*;

verus! {

/// The start of the span of `interval` minutes that a time of day falls into.
pub open spec fn bucket_of(t: TimeOfDay, interval: u32) -> TimeOfDay {
    TimeOfDay { secs: (t.secs / 60 / interval * interval * 60) as u32, nanos: 0 }
}

proof fn bucket_is_earlier(secs: u32, interval: u32)
    requires
        interval > 0,
    ensures
        0 <= secs / 60 / interval * interval <= secs / 60,
        0 <= secs / 60 / interval * interval * 60 <= secs,
{
    let m = secs / 60;
    assert(m / interval * interval <= m) by (nonlinear_arith)
        requires
            interval > 0,
    ;
    assert(0 <= m / interval * interval) by (nonlinear_arith)
        requires
            interval > 0,
    ;
}

/// The start of the span of `interval` minutes that a time of day falls into.
pub fn bucket_start(t: TimeOfDay, interval: u32) -> (r: TimeOfDay)
    requires
        interval > 0,
    ensures
        r == bucket_of(t, interval),
        t.valid() ==> r.valid(),
{
    proof {
        bucket_is_earlier(t.secs, interval);
    }
    TimeOfDay { secs: t.secs / 60 / interval * interval * 60, nanos: 0 }
}

/// A candle that begins a longer one.
pub open spec fn opening_bar(c: MinuteCandle, interval: u32) -> MinuteCandle {
    MinuteCandle { time: bucket_of(c.time, interval), ..c }
}

/// A longer candle with one more taken in.
pub open spec fn bar_with(bar: MinuteCandle, c: MinuteCandle) -> MinuteCandle {
    MinuteCandle {
        high: if c.high > bar.high {
            c.high
        } else {
            bar.high
        },
        low: if c.low < bar.low {
            c.low
        } else {
            bar.low
        },
        close: c.close,
        volume: (bar.volume + c.volume) as u64,
        ..bar
    }
}

/// The longer candles made of a row of shorter ones: neighbours that fall into the same span of
/// the same day become one.
pub open spec fn bars_of(s: Seq<MinuteCandle>, interval: u32) -> Seq<MinuteCandle>
    decreases s.len(),
{
    if s.len() == 0 {
        Seq::empty()
    } else {
        let before = bars_of(s.drop_last(), interval);
        let c = s.last();
        if before.len() > 0 && before.last().time == bucket_of(c.time, interval)
            && before.last().day == c.day {
            before.drop_last().push(bar_with(before.last(), c))
        } else {
            before.push(opening_bar(c, interval))
        }
    }
}

/// The volume of a row of candles.
pub open spec fn total_volume(s: Seq<MinuteCandle>) -> int
    decreases s.len(),
{
    if s.len() == 0 {
        0
    } else {
        total_volume(s.drop_last()) + s.last().volume
    }
}

proof fn volume_grows(s: Seq<MinuteCandle>, i: int)
    requires
        0 <= i <= s.len(),
    ensures
        0 <= total_volume(s.take(i)) <= total_volume(s),
    decreases s.len(),
{
    if i == s.len() {
        assert(s.take(i) =~= s);
        if s.len() > 0 {
            volume_grows(s.drop_last(), s.len() - 1);
        }
    } else {
        assert(s.take(i) =~= s.drop_last().take(i));
        volume_grows(s.drop_last(), i);
    }
}

/// Makes longer candles of `interval` minutes.
pub fn aggregate(candles: &Vec<MinuteCandle>, interval: u32) -> (r: Vec<MinuteCandle>)
    requires
        interval > 0,
        total_volume(candles@) <= u64::MAX,
    ensures
        r@ == bars_of(candles@, interval),
{
    let mut out: Vec<MinuteCandle> = Vec::new();
    let mut i: usize = 0;
    while i < candles.len()
        invariant
            i <= candles.len(),
            interval > 0,
            total_volume(candles@) <= u64::MAX,
            out@ == bars_of(candles@.take(i as int), interval),
            forall|k: int|
                0 <= k < out@.len() ==> (#[trigger] out@[k]).volume <= total_volume(
                    candles@.take(i as int),
                ),
        decreases candles.len() - i,
    {
        let c: MinuteCandle = candles[i];
        let start: TimeOfDay = bucket_start(c.time, interval);
        proof {
            assert(candles@.take(i + 1).drop_last() =~= candles@.take(i as int));
            volume_grows(candles@, i + 1);
            volume_grows(candles@, i as int);
        }
        let n: usize = out.len();
        let mut taken: bool = false;
        if n > 0 {
            let bar: MinuteCandle = out[n - 1];
            if bar.time == start && bar.day == c.day {
                let high: i64 = if c.high > bar.high {
                    c.high
                } else {
                    bar.high
                };
                let low: i64 = if c.low < bar.low {
                    c.low
                } else {
                    bar.low
                };
                let _ = out.pop();
                out.push(
                    MinuteCandle {
                        high,
                        low,
                        close: c.close,
                        volume: bar.volume + c.volume,
                        ..bar
                    },
                );
                taken = true;
            }
        }
        if !taken {
            out.push(MinuteCandle { time: start, ..c });
        }
        i = i + 1;
    }
    proof {
        assert(candles@.take(i as int) =~= candles@);
    }
    out
}

/// A longer candle that began at `start` is complete.  A span that would end after midnight counts
/// as ending on the same day, past midnight.
pub open spec fn is_complete(start: TimeOfDay, interval: u32, now: TimeOfDay) -> bool {
    !now.earlier(start.later(interval as int))
}

/// The longer candles that are complete: all but a last one that is still open.
pub open spec fn completed_bars(s: Seq<MinuteCandle>, interval: u32, now: TimeOfDay) -> Seq<
    MinuteCandle,
> {
    let bars = bars_of(s, interval);
    if bars.len() > 0 && !is_complete(bars.last().time, interval, now) {
        bars.drop_last()
    } else {
        bars
    }
}

/// Each of the candles has a real time of day.
pub open spec fn well_timed(s: Seq<MinuteCandle>) -> bool {
    forall|i: int| 0 <= i < s.len() ==> (#[trigger] s[i]).time.valid()
}

proof fn bars_are_well_timed(s: Seq<MinuteCandle>, interval: u32)
    requires
        interval > 0,
        well_timed(s),
    ensures
        well_timed(bars_of(s, interval)),
    decreases s.len(),
{
    if s.len() > 0 {
        bars_are_well_timed(s.drop_last(), interval);
        bucket_is_earlier(s.last().time.secs, interval);
        assert(s[s.len() - 1].time.valid());
    }
}

/// Makes longer candles of `interval` minutes, and leaves out a last one that is still open.
pub fn aggregate_completed_bars(
    candles: &Vec<MinuteCandle>,
    interval_min: u32,
    now: TimeOfDay,
) -> (r: Vec<MinuteCandle>)
    requires
        interval_min > 0,
        well_timed(candles@),
        total_volume(candles@) <= u64::MAX,
    ensures
        r@ == completed_bars(candles@, interval_min, now),
{
    let mut aggregated: Vec<MinuteCandle> = aggregate(candles, interval_min);
    let n: usize = aggregated.len();
    if n > 0 {
        proof {
            bars_are_well_timed(candles@, interval_min);
            assert(aggregated@[n - 1].time.valid());
        }
        let end: TimeOfDay = aggregated[n - 1].time.plus_minutes(interval_min);
        if now.is_before(end) {
            let _ = aggregated.pop();
        }
    }
    aggregated
}

/// Longer candles carry the volume of the shorter ones.
pub proof fn aggregation_keeps_volume(s: Seq<MinuteCandle>, interval: u32)
    requires
        total_volume(s) <= u64::MAX,
    ensures
        total_volume(bars_of(s, interval)) == total_volume(s),
    decreases s.len(),
{
    if s.len() > 0 {
        let before = bars_of(s.drop_last(), interval);
        volume_grows(s, s.len() - 1);
        assert(s.take(s.len() - 1) =~= s.drop_last());
        aggregation_keeps_volume(s.drop_last(), interval);
        let bars = bars_of(s, interval);
        assert(bars.drop_last() =~= if bars.len() == before.len() {
            before.drop_last()
        } else {
            before
        });
        if before.len() > 0 {
            volume_grows(before, before.len() - 1);
            assert(before.take(before.len() - 1) =~= before.drop_last());
        }
    }
}

/// The candles of one day in order of time.
pub open spec fn in_order(s: Seq<MinuteCandle>) -> bool {
    forall|i: int, j: int|
        0 <= i <= j < s.len() ==> (#[trigger] s[i]).day == (#[trigger] s[j]).day
            && !s[j].time.earlier(s[i].time)
}

/// Longer candles made of one day's candles in order of time come in order too, no two of them at
/// the same time.
pub proof fn aggregation_keeps_order(s: Seq<MinuteCandle>, interval: u32)
    requires
        interval > 0,
        in_order(s),
    ensures
        s.len() > 0 ==> bars_of(s, interval).len() > 0 && bars_of(s, interval).last().time
            == bucket_of(s.last().time, interval) && bars_of(s, interval).last().day
            == s.last().day,
        forall|i: int, j: int|
            0 <= i < j < bars_of(s, interval).len() ==> (#[trigger] bars_of(
                s,
                interval,
            )[i]).time.earlier((#[trigger] bars_of(s, interval)[j]).time),
    decreases s.len(),
{
    if s.len() > 0 {
        let prev = s.drop_last();
        aggregation_keeps_order(prev, interval);
        if prev.len() > 0 {
            let a = s[s.len() - 2].time.secs;
            let b = s[s.len() - 1].time.secs;
            assert(prev.last() == s[s.len() - 2]);
            assert(a <= b);
            bucket_is_earlier(a, interval);
            bucket_is_earlier(b, interval);
            assert((a / 60) / interval * interval <= (b / 60) / interval * interval)
                by (nonlinear_arith)
                requires
                    interval > 0,
                    a <= b,
            ;
        }
    }
}

/// The highest price of a row of candles that is not empty.
pub open spec fn highest(s: Seq<MinuteCandle>) -> i64
    decreases s.len(),
{
    if s.len() <= 1 {
        s[0].high
    } else if s.last().high > highest(s.drop_last()) {
        s.last().high
    } else {
        highest(s.drop_last())
    }
}

/// The lowest price of a row of candles that is not empty.
pub open spec fn lowest(s: Seq<MinuteCandle>) -> i64
    decreases s.len(),
{
    if s.len() <= 1 {
        s[0].low
    } else if s.last().low < lowest(s.drop_last()) {
        s.last().low
    } else {
        lowest(s.drop_last())
    }
}

/// Longer candles reach as high and as low as the shorter ones, open at the same price and close
/// at the same price.
pub proof fn aggregation_keeps_extremes(s: Seq<MinuteCandle>, interval: u32)
    requires
        s.len() > 0,
    ensures
        bars_of(s, interval).len() > 0,
        highest(bars_of(s, interval)) == highest(s),
        lowest(bars_of(s, interval)) == lowest(s),
        bars_of(s, interval)[0].open == s[0].open,
        bars_of(s, interval).last().close == s.last().close,
    decreases s.len(),
{
    let bars = bars_of(s, interval);
    if s.len() == 1 {
        assert(bars_of(s.drop_last(), interval).len() == 0);
        assert(bars == Seq::<MinuteCandle>::empty().push(opening_bar(s[0], interval)));
    } else {
        let before = bars_of(s.drop_last(), interval);
        aggregation_keeps_extremes(s.drop_last(), interval);
        let c = s.last();
        if before.last().time == bucket_of(c.time, interval) && before.last().day == c.day {
            assert(bars == before.drop_last().push(bar_with(before.last(), c)));
            assert(bars.drop_last() =~= before.drop_last());
            if before.len() == 1 {
                assert(before[0] == before.last());
                assert(bars[0] == bars.last());
            }
        } else {
            assert(bars == before.push(opening_bar(c, interval)));
            assert(bars.drop_last() =~= before);
        }
    }
}

/// Within a span of the day, its end not included.
pub open spec fn within_span(t: TimeOfDay, start: TimeOfDay, end: TimeOfDay) -> bool {
    !t.earlier(start) && t.earlier(end)
}

/// The highest and the lowest price of the candles in a span of the day, if there are any.
pub open spec fn range_in(s: Seq<MinuteCandle>, start: TimeOfDay, end: TimeOfDay) -> Option<
    (i64, i64),
>
    decreases s.len(),
{
    if s.len() == 0 {
        None
    } else {
        let before = range_in(s.drop_last(), start, end);
        let c = s.last();
        if !within_span(c.time, start, end) {
            before
        } else {
            match before {
                None => Some((c.high, c.low)),
                Some((h, l)) => Some(
                    (
                        if c.high > h {
                            c.high
                        } else {
                            h
                        },
                        if c.low < l {
                            c.low
                        } else {
                            l
                        },
                    ),
                ),
            }
        }
    }
}

/// The highest and the lowest price of the candles in a span of the day, if there are any.
pub fn or_range(candles: &Vec<MinuteCandle>, start: TimeOfDay, end: TimeOfDay) -> (r: Option<
    (i64, i64),
>)
    ensures
        r == range_in(candles@, start, end),
{
    let mut found: Option<(i64, i64)> = None;
    let mut i: usize = 0;
    while i < candles.len()
        invariant
            i <= candles.len(),
            found == range_in(candles@.take(i as int), start, end),
        decreases candles.len() - i,
    {
        let c: MinuteCandle = candles[i];
        proof {
            assert(candles@.take(i + 1).drop_last() =~= candles@.take(i as int));
        }
        if !c.time.is_before(start) && c.time.is_before(end) {
            found =
            match found {
                None => Some((c.high, c.low)),
                Some((h, l)) => Some(
                    (
                        if c.high > h {
                            c.high
                        } else {
                            h
                        },
                        if c.low < l {
                            c.low
                        } else {
                            l
                        },
                    ),
                ),
            };
        }
        i = i + 1;
    }
    proof {
        assert(candles@.take(i as int) =~= candles@);
    }
    found
}

/// A candle in a span with a given high.
pub open spec fn reaches_high(
    s: Seq<MinuteCandle>,
    start: TimeOfDay,
    end: TimeOfDay,
    h: i64,
    i: int,
) -> bool {
    0 <= i < s.len() && within_span(s[i].time, start, end) && s[i].high == h
}

/// A candle in a span with a given low.
pub open spec fn reaches_low(
    s: Seq<MinuteCandle>,
    start: TimeOfDay,
    end: TimeOfDay,
    l: i64,
    i: int,
) -> bool {
    0 <= i < s.len() && within_span(s[i].time, start, end) && s[i].low == l
}

/// The range of a span holds every candle of the span, and its bounds are reached.
pub proof fn range_is_tight(s: Seq<MinuteCandle>, start: TimeOfDay, end: TimeOfDay)
    ensures
        match range_in(s, start, end) {
            None => forall|i: int|
                0 <= i < s.len() ==> !within_span((#[trigger] s[i]).time, start, end),
            Some((h, l)) => {
                &&& forall|i: int|
                    0 <= i < s.len() && within_span((#[trigger] s[i]).time, start, end)
                        ==> s[i].high <= h && s[i].low >= l
                &&& exists|i: int| #[trigger] reaches_high(s, start, end, h, i)
                &&& exists|i: int| #[trigger] reaches_low(s, start, end, l, i)
            },
        },
    decreases s.len(),
{
    if s.len() > 0 {
        let prev = s.drop_last();
        range_is_tight(prev, start, end);
        assert forall|i: int| 0 <= i < s.len() - 1 implies #[trigger] s[i] == prev[i] by {}
        if let Some((h, l)) = range_in(s, start, end) {
            match range_in(prev, start, end) {
                Some((h0, l0)) => {
                    let i = choose|i: int| #[trigger] reaches_high(prev, start, end, h0, i);
                    let j = choose|j: int| #[trigger] reaches_low(prev, start, end, l0, j);
                    if h == h0 {
                        assert(reaches_high(s, start, end, h, i));
                    } else {
                        assert(reaches_high(s, start, end, h, s.len() - 1));
                    }
                    if l == l0 {
                        assert(reaches_low(s, start, end, l, j));
                    } else {
                        assert(reaches_low(s, start, end, l, s.len() - 1));
                    }
                },
                None => {
                    assert(reaches_high(s, start, end, h, s.len() - 1));
                    assert(reaches_low(s, start, end, l, s.len() - 1));
                },
            }
        }
    }
}

/// The candles that come no earlier than `from`, and after `after` where that is given.
pub open spec fn searchable(c: MinuteCandle, from: TimeOfDay, after: Option<TimeOfDay>) -> bool {
    !c.time.earlier(from) && (after matches Some(t) ==> t.earlier(c.time))
}

/// Those of the candles, in the same order.
pub open spec fn search_window(
    s: Seq<MinuteCandle>,
    from: TimeOfDay,
    after: Option<TimeOfDay>,
) -> Seq<MinuteCandle>
    decreases s.len(),
{
    if s.len() == 0 {
        Seq::empty()
    } else {
        let before = search_window(s.drop_last(), from, after);
        if searchable(s.last(), from, after) {
            before.push(s.last())
        } else {
            before
        }
    }
}

/// The candles that a search looks at: those from `from` on, and after `after` where that is
/// given.
pub fn candles_to_search(
    candles: &Vec<MinuteCandle>,
    from: TimeOfDay,
    after: Option<TimeOfDay>,
) -> (r: Vec<MinuteCandle>)
    ensures
        r@ == search_window(candles@, from, after),
{
    let mut out: Vec<MinuteCandle> = Vec::new();
    let mut i: usize = 0;
    while i < candles.len()
        invariant
            i <= candles.len(),
            out@ == search_window(candles@.take(i as int), from, after),
        decreases candles.len() - i,
    {
        let c: MinuteCandle = candles[i];
        proof {
            assert(candles@.take(i + 1).drop_last() =~= candles@.take(i as int));
        }
        let late_enough: bool = match after {
            Some(t) => t.is_before(c.time),
            None => true,
        };
        if !c.time.is_before(from) && late_enough {
            out.push(c);
        }
        i = i + 1;
    }
    proof {
        assert(candles@.take(i as int) =~= candles@);
    }
    out
}

/// A search never looks at a candle up to the time it is to start after.
pub proof fn search_leaves_the_past_alone(
    s: Seq<MinuteCandle>,
    from: TimeOfDay,
    after: TimeOfDay,
    k: int,
)
    requires
        0 <= k < search_window(s, from, Some(after)).len(),
    ensures
        after.earlier(search_window(s, from, Some(after))[k].time),
        s.contains(search_window(s, from, Some(after))[k]),
    decreases s.len(),
{
    if s.len() > 0 {
        let before = search_window(s.drop_last(), from, Some(after));
        if k < before.len() {
            search_leaves_the_past_alone(s.drop_last(), from, after, k);
            let c = before[k];
            let i = choose|i: int| 0 <= i < s.drop_last().len() && s.drop_last()[i] == c;
            assert(s[i] == c);
        } else {
            assert(s[s.len() - 1] == s.last());
        }
    }
}

/// `bar` sums up the candles from place `i` to before place `j`: it is of their day and its span
/// holds them all, it opens with the first, closes with the last, reaches exactly as high and as
/// low as they do, and has their volume.
pub open spec fn sums_up(
    bar: MinuteCandle,
    s: Seq<MinuteCandle>,
    i: int,
    j: int,
    interval: u32,
) -> bool {
    &&& 0 <= i < j <= s.len()
    &&& bar.open == s[i].open
    &&& bar.close == s[j - 1].close
    &&& bar.time.nanos == 0
    &&& bar.time.secs as int % (interval * 60) == 0
    &&& forall|m: int|
        i <= m < j ==> {
            &&& (#[trigger] s[m]).day == bar.day
            &&& bar.time.secs <= s[m].time.secs < bar.time.secs + interval * 60
            &&& s[m].high <= bar.high
            &&& s[m].low >= bar.low
        }
    &&& exists|m: int| i <= m < j && (#[trigger] s[m]).high == bar.high
    &&& exists|m: int| i <= m < j && (#[trigger] s[m]).low == bar.low
    &&& bar.volume == total_volume(s.subrange(i, j))
}

/// The bars are cut from the candles at these places: each sums up the candles between two cuts,
/// nothing is left out, and no two neighbours are of the same span.
pub open spec fn cut_at(
    bars: Seq<MinuteCandle>,
    s: Seq<MinuteCandle>,
    cuts: Seq<int>,
    interval: u32,
) -> bool {
    &&& cuts.len() == bars.len() + 1
    &&& cuts[0] == 0
    &&& cuts.last() == s.len()
    &&& forall|k: int|
        0 <= k < bars.len() ==> sums_up(#[trigger] bars[k], s, cuts[k], cuts[k + 1], interval)
    &&& forall|k: int|
        0 < k < bars.len() ==> (#[trigger] bars[k]).time != bars[k - 1].time || bars[k].day
            != bars[k - 1].day
}

proof fn bucket_holds(secs: u32, interval: u32)
    requires
        interval > 0,
    ensures
        bucket_of(TimeOfDay { secs, nanos: 0 }, interval).secs <= secs,
        secs < bucket_of(TimeOfDay { secs, nanos: 0 }, interval).secs + interval * 60,
        bucket_of(TimeOfDay { secs, nanos: 0 }, interval).secs as int % (interval * 60) == 0,
{
    bucket_is_earlier(secs, interval);
    let m = secs as int / 60;
    let q = m / (interval as int);
    assert(m < q * interval + interval) by (nonlinear_arith)
        requires
            interval > 0,
            q == m / (interval as int),
    ;
    assert((q * interval * 60) % (interval * 60) == 0) by (nonlinear_arith)
        requires
            interval > 0,
    ;
}

proof fn volume_of_one_more(s: Seq<MinuteCandle>, i: int, j: int)
    requires
        0 <= i <= j < s.len(),
    ensures
        total_volume(s.subrange(i, j + 1)) == total_volume(s.subrange(i, j)) + s[j].volume,
{
    assert(s.subrange(i, j + 1).drop_last() =~= s.subrange(i, j));
}

proof fn sum_stays(bar: MinuteCandle, s: Seq<MinuteCandle>, i: int, j: int, interval: u32)
    requires
        s.len() > 0,
        sums_up(bar, s.drop_last(), i, j, interval),
    ensures
        sums_up(bar, s, i, j, interval),
{
    let p = s.drop_last();
    assert(p.subrange(i, j) =~= s.subrange(i, j));
    let h = choose|m: int| i <= m < j && (#[trigger] p[m]).high == bar.high;
    let l = choose|m: int| i <= m < j && (#[trigger] p[m]).low == bar.low;
    assert(s[h] == p[h] && s[l] == p[l]);
    assert forall|m: int| i <= m < j implies #[trigger] s[m] == p[m] by {}
}

proof fn longer_bar_sums_up(bar: MinuteCandle, s: Seq<MinuteCandle>, i: int, interval: u32)
    requires
        interval > 0,
        s.len() > 0,
        total_volume(s) <= u64::MAX,
        sums_up(bar, s.drop_last(), i, s.len() - 1, interval),
        bar.time == bucket_of(s.last().time, interval),
        bar.day == s.last().day,
    ensures
        sums_up(bar_with(bar, s.last()), s, i, s.len() as int, interval),
{
    let n = s.len() - 1;
    let c = s[n];
    bucket_holds(c.time.secs, interval);
    assert(bucket_of(c.time, interval) == bucket_of(
        TimeOfDay { secs: c.time.secs, nanos: 0 },
        interval,
    ));
    sum_stays(bar, s, i, n, interval);
    volume_of_one_more(s, i, n);
    volume_grows(s, i);
    pieces_add_up(s, i);
    let sum = bar_with(bar, c);
    let h = choose|m: int| i <= m < n && (#[trigger] s[m]).high == bar.high;
    let l = choose|m: int| i <= m < n && (#[trigger] s[m]).low == bar.low;
    assert(s[n].high == sum.high || s[h].high == sum.high);
    assert(s[n].low == sum.low || s[l].low == sum.low);
}

proof fn new_bar_sums_up(s: Seq<MinuteCandle>, interval: u32)
    requires
        interval > 0,
        s.len() > 0,
    ensures
        sums_up(opening_bar(s.last(), interval), s, s.len() - 1, s.len() as int, interval),
{
    let n = s.len() - 1;
    let c = s[n];
    bucket_holds(c.time.secs, interval);
    assert(bucket_of(c.time, interval) == bucket_of(
        TimeOfDay { secs: c.time.secs, nanos: 0 },
        interval,
    ));
    volume_of_one_more(s, n, n);
    assert(s.subrange(n, n) =~= Seq::<MinuteCandle>::empty());
    let bar = opening_bar(c, interval);
    assert(s[n].high == bar.high && s[n].low == bar.low);
}

proof fn cuts_with_longer_bar(
    before: Seq<MinuteCandle>,
    s: Seq<MinuteCandle>,
    cuts: Seq<int>,
    sum: MinuteCandle,
    interval: u32,
)
    requires
        s.len() > 0,
        before.len() > 0,
        cut_at(before, s.drop_last(), cuts, interval),
        sums_up(sum, s, cuts[before.len() - 1], s.len() as int, interval),
        sum.time == before.last().time,
        sum.day == before.last().day,
    ensures
        cut_at(
            before.drop_last().push(sum),
            s,
            cuts.update(before.len() as int, s.len() as int),
            interval,
        ),
{
    let bars = before.drop_last().push(sum);
    let new_cuts = cuts.update(before.len() as int, s.len() as int);
    assert forall|k: int| 0 <= k < bars.len() implies sums_up(
        #[trigger] bars[k],
        s,
        new_cuts[k],
        new_cuts[k + 1],
        interval,
    ) by {
        if k < before.len() - 1 {
            assert(bars[k] == before[k]);
            sum_stays(before[k], s, cuts[k], cuts[k + 1], interval);
        }
    }
    assert forall|k: int| 0 < k < bars.len() implies (#[trigger] bars[k]).time != bars[k - 1].time
        || bars[k].day != bars[k - 1].day by {
        assert(before[k].time == bars[k].time && before[k].day == bars[k].day);
        assert(before[k - 1].time == bars[k - 1].time && before[k - 1].day == bars[k - 1].day);
    }
}

proof fn cuts_with_new_bar(
    before: Seq<MinuteCandle>,
    s: Seq<MinuteCandle>,
    cuts: Seq<int>,
    bar: MinuteCandle,
    interval: u32,
)
    requires
        s.len() > 0,
        cut_at(before, s.drop_last(), cuts, interval),
        sums_up(bar, s, s.len() - 1, s.len() as int, interval),
        before.len() > 0 ==> bar.time != before.last().time || bar.day != before.last().day,
    ensures
        cut_at(before.push(bar), s, cuts.push(s.len() as int), interval),
{
    let bars = before.push(bar);
    let new_cuts = cuts.push(s.len() as int);
    assert forall|k: int| 0 <= k < bars.len() implies sums_up(
        #[trigger] bars[k],
        s,
        new_cuts[k],
        new_cuts[k + 1],
        interval,
    ) by {
        if k < before.len() {
            assert(bars[k] == before[k]);
            sum_stays(before[k], s, cuts[k], cuts[k + 1], interval);
        }
    }
    assert forall|k: int| 0 < k < bars.len() implies (#[trigger] bars[k]).time != bars[k - 1].time
        || bars[k].day != bars[k - 1].day by {
        if k < before.len() {
            assert(bars[k] == before[k] && bars[k - 1] == before[k - 1]);
        }
    }
}

/// Every longer candle sums up the shorter ones of its span: aggregation cuts the row into pieces,
/// and each candle made is the sum of one piece.
pub proof fn bars_sum_up_their_spans(s: Seq<MinuteCandle>, interval: u32)
    requires
        interval > 0,
        total_volume(s) <= u64::MAX,
    ensures
        exists|cuts: Seq<int>| #[trigger] cut_at(bars_of(s, interval), s, cuts, interval),
    decreases s.len(),
{
    if s.len() == 0 {
        assert(cut_at(bars_of(s, interval), s, seq![0], interval));
    } else {
        let p = s.drop_last();
        let n = s.len() - 1;
        let c = s.last();
        volume_grows(s, n);
        assert(s.take(n) =~= p);
        bars_sum_up_their_spans(p, interval);
        let before = bars_of(p, interval);
        let cuts = choose|cuts: Seq<int>| #[trigger] cut_at(before, p, cuts, interval);
        if before.len() > 0 && before.last().time == bucket_of(c.time, interval)
            && before.last().day == c.day {
            let b = before.len() - 1;
            assert(sums_up(before[b], p, cuts[b], cuts[b + 1], interval));
            longer_bar_sums_up(before[b], s, cuts[b], interval);
            cuts_with_longer_bar(before, s, cuts, bar_with(before[b], c), interval);
            assert(bars_of(s, interval) == before.drop_last().push(bar_with(before[b], c)));
        } else {
            new_bar_sums_up(s, interval);
            cuts_with_new_bar(before, s, cuts, opening_bar(c, interval), interval);
            assert(bars_of(s, interval) == before.push(opening_bar(c, interval)));
        }
    }
}

proof fn pieces_add_up(s: Seq<MinuteCandle>, i: int)
    requires
        0 <= i <= s.len(),
    ensures
        total_volume(s.take(i)) + total_volume(s.subrange(i, s.len() as int)) == total_volume(s),
    decreases s.len(),
{
    if i == s.len() {
        assert(s.take(i) =~= s);
        assert(s.subrange(i, i) =~= Seq::<MinuteCandle>::empty());
    } else {
        let p = s.drop_last();
        pieces_add_up(p, i);
        assert(p.take(i) =~= s.take(i));
        assert(p.subrange(i, p.len() as int) =~= s.subrange(i, s.len() as int).drop_last());
    }
}

/// A candle that ends before midnight is left out of the complete ones exactly where it is the
/// last one and its end is still to come; all the others stay as they are.
pub proof fn only_the_open_bar_is_left_out(s: Seq<MinuteCandle>, interval: u32, now: TimeOfDay)
    requires
        bars_of(s, interval).len() > 0,
        bars_of(s, interval).last().time.nanos == 0,
        bars_of(s, interval).last().time.secs + interval * 60 < 86_400,
    ensures
        ({
            let bars = bars_of(s, interval);
            let kept = completed_bars(s, interval, now);
            &&& now.secs < bars.last().time.secs + interval * 60 ==> kept == bars.drop_last()
            &&& now.secs >= bars.last().time.secs + interval * 60 ==> kept == bars
        }),
{
}

/// A span of the day begins with its start and ends just before its end.
pub proof fn spans_are_half_open(t: TimeOfDay, start: TimeOfDay, end: TimeOfDay)
    requires
        t.nanos < 1_000_000_000,
        start.nanos < 1_000_000_000,
        end.nanos < 1_000_000_000,
    ensures
        within_span(t, start, end) <==> start.secs * 1_000_000_000 + start.nanos <= t.secs
            * 1_000_000_000 + t.nanos < end.secs * 1_000_000_000 + end.nanos,
{
}

/// The range of a span: no candle of the span reaches beyond it, a candle of the span reaches each
/// of its bounds, and candles outside the span play no part.
pub proof fn range_is_that_of_the_span(s: Seq<MinuteCandle>, start: TimeOfDay, end: TimeOfDay)
    requires
        start.nanos == 0,
        end.nanos == 0,
    ensures
        match range_in(s, start, end) {
            None => forall|i: int|
                0 <= i < s.len() ==> (#[trigger] s[i]).time.secs < start.secs || s[i].time.secs
                    >= end.secs,
            Some((h, l)) => {
                &&& forall|i: int|
                    0 <= i < s.len() && start.secs <= (#[trigger] s[i]).time.secs < end.secs
                        ==> l <= s[i].low && s[i].high <= h
                &&& exists|i: int|
                    0 <= i < s.len() && start.secs <= (#[trigger] s[i]).time.secs < end.secs
                        && s[i].high == h
                &&& exists|i: int|
                    0 <= i < s.len() && start.secs <= (#[trigger] s[i]).time.secs < end.secs
                        && s[i].low == l
            },
        },
{
    range_is_tight(s, start, end);
    if let Some((h, l)) = range_in(s, start, end) {
        let i = choose|i: int| #[trigger] reaches_high(s, start, end, h, i);
        let j = choose|j: int| #[trigger] reaches_low(s, start, end, l, j);
        assert(s[i].high == h && s[j].low == l);
    }
}

/// A search looks at exactly the candles from a time on, and after another time where that is
/// given, in their order.
pub proof fn search_looks_at_the_rest(
    s: Seq<MinuteCandle>,
    from: TimeOfDay,
    after: Option<TimeOfDay>,
)
    ensures
        search_window(s, from, after) == s.filter(
            |c: MinuteCandle|
                (c.time.secs > from.secs || (c.time.secs == from.secs && c.time.nanos
                    >= from.nanos)) && (after matches Some(t) ==> c.time.secs > t.secs || (
                c.time.secs == t.secs && c.time.nanos > t.nanos)),
        ),
    decreases s.len(),
{
    reveal(Seq::filter);
    if s.len() > 0 {
        search_looks_at_the_rest(s.drop_last(), from, after);
    }
}

} // verus!
