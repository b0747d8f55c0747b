//! Minute prices from elsewhere, for an opening range that the feed missed.

use crate::candles::{or_range, range_in, within_span};
use crate::clock::TimeOfDay;
use crate::text::{requote, requoted, trim, trim_quotes, trimmed, unquoted};
use crate::types::MinuteCandle;
use chrono::{Datelike, NaiveDate, NaiveDateTime, NaiveTime, Timelike};
use vstd::prelude::*;
use vstd::string::*;
use vstd::utf8::encode_utf8;

verus! {

/// The day, counted from 1 January of year 1, that `chrono::NaiveDate::parse_from_str` reads in a
/// text with the format `%Y%m%d`.
pub uninterp spec fn compact_date(s: Seq<char>) -> Option<i32>;

/// The time of day, in seconds since midnight and nanoseconds past them, that
/// `chrono::NaiveTime::parse_from_str` reads in a text with the format `%H%M%S`.
pub uninterp spec fn compact_time(s: Seq<char>) -> Option<(u32, u32)>;

/// The day, the seconds since midnight and the nanoseconds past them that
/// `chrono::NaiveDateTime::parse_from_str` reads in a text with the format `%Y%m%d%H%M`.
pub uninterp spec fn compact_moment(s: Seq<char>) -> Option<(i32, u32, u32)>;

/// The table that `serde_json::from_str` reads in a text: of each cell, the text if it is one, and
/// the number if it is one of 64 bits with its sign.
pub uninterp spec fn json_table(s: Seq<char>) -> Option<Seq<Seq<(Option<Seq<char>>, Option<i64>)>>>;

/// `chrono::NaiveDate::parse_from_str` with `%Y%m%d`, and `Datelike::num_days_from_ce` of what it
/// reads.  The result is a function of the text.
#[verifier::external_body]
fn read_date(s: &str) -> (r: Option<i32>)
    ensures
        r == compact_date(s@),
{
    NaiveDate::parse_from_str(s, "%Y%m%d").ok().map(|d| d.num_days_from_ce())
}

/// `chrono::NaiveTime::parse_from_str` with `%H%M%S`.  The result is a function of the text.
#[verifier::external_body]
fn read_time(s: &str) -> (r: Option<(u32, u32)>)
    ensures
        r == compact_time(s@),
{
    NaiveTime::parse_from_str(s, "%H%M%S").ok().map(
        |t| (t.num_seconds_from_midnight(), t.nanosecond()),
    )
}

/// `chrono::NaiveDateTime::parse_from_str` with `%Y%m%d%H%M`.  The result is a function of the
/// text.
#[verifier::external_body]
fn read_moment(s: &str) -> (r: Option<(i32, u32, u32)>)
    ensures
        r == compact_moment(s@),
{
    NaiveDateTime::parse_from_str(s, "%Y%m%d%H%M").ok().map(
        |d| (d.num_days_from_ce(), d.num_seconds_from_midnight(), d.nanosecond()),
    )
}

/// One cell of a table of prices.
#[derive(Debug, Clone)]
pub struct TableCell {
    pub text: Option<String>,
    pub number: Option<i64>,
}

/// What a cell holds.
pub open spec fn cell_view(c: TableCell) -> (Option<Seq<char>>, Option<i64>) {
    (
        match c.text {
            Some(t) => Some(t@),
            None => None,
        },
        c.number,
    )
}

/// What a row holds.
pub open spec fn row_view(row: Vec<TableCell>) -> Seq<(Option<Seq<char>>, Option<i64>)> {
    Seq::new(row@.len(), |j: int| cell_view(row@[j]))
}

/// What a table holds.
pub open spec fn table_view(t: Option<Vec<Vec<TableCell>>>) -> Option<
    Seq<Seq<(Option<Seq<char>>, Option<i64>)>>,
> {
    match t {
        Some(rows) => Some(Seq::new(rows@.len(), |i: int| row_view(rows@[i]))),
        None => None,
    }
}

/// `serde_json::from_str` for a list of lists of values; of each value, what `Value::as_str` and
/// `Value::as_i64` give.  The result is a function of the text.
#[verifier::external_body]
fn read_table(s: &str) -> (r: Option<Vec<Vec<TableCell>>>)
    ensures
        table_view(r) == json_table(s@),
{
    let rows: Vec<Vec<serde_json::Value>> = serde_json::from_str(s).ok()?;
    let cell = |v: &serde_json::Value| TableCell {
        text: v.as_str().map(|t| t.to_string()),
        number: v.as_i64(),
    };
    Some(rows.iter().map(|row| row.iter().map(cell).collect()).collect())
}

/// One minute's prices as the broker delivers them.
#[derive(Debug, Clone)]
pub struct MinutePriceRow {
    pub date: String,
    pub hour: String,
    pub open: i64,
    pub high: i64,
    pub low: i64,
    pub close: i64,
    pub volume: i64,
}

/// Nine o'clock, in seconds since midnight.
pub const MARKET_OPEN: u32 = 32_400;

/// Half past three, in seconds since midnight.
pub const MARKET_CLOSE: u32 = 55_800;

/// The candle of one minute's prices, where its day and its time could be read and it lies within
/// the trading hours.
pub open spec fn candle_at(
    row: MinutePriceRow,
    date: Option<i32>,
    time: Option<(u32, u32)>,
) -> Option<MinuteCandle> {
    match (date, time) {
        (Some(day), Some((secs, nanos))) => {
            let t = TimeOfDay { secs, nanos };
            if t.earlier(TimeOfDay { secs: MARKET_OPEN, nanos: 0 }) || (TimeOfDay {
                secs: MARKET_CLOSE,
                nanos: 0,
            }).earlier(t) {
                None
            } else {
                Some(
                    MinuteCandle {
                        day,
                        time: t,
                        open: row.open,
                        high: row.high,
                        low: row.low,
                        close: row.close,
                        volume: row.volume as u64,
                    },
                )
            }
        },
        _ => None,
    }
}

/// The candle of one minute's prices.
pub fn row_candle(row: &MinutePriceRow, date: Option<i32>, time: Option<(u32, u32)>) -> (r: Option<
    MinuteCandle,
>)
    ensures
        r == candle_at(*row, date, time),
{
    match (date, time) {
        (Some(day), Some((secs, nanos))) => {
            let t = TimeOfDay { secs, nanos };
            let open = TimeOfDay { secs: MARKET_OPEN, nanos: 0 };
            let close = TimeOfDay { secs: MARKET_CLOSE, nanos: 0 };
            if t.is_before(open) || close.is_before(t) {
                None
            } else {
                Some(
                    MinuteCandle {
                        day,
                        time: t,
                        open: row.open,
                        high: row.high,
                        low: row.low,
                        close: row.close,
                        volume: row.volume as u64,
                    },
                )
            }
        },
        _ => None,
    }
}

/// A row of candles in order of time with one more put in its place, behind those of its time.
pub open spec fn with_candle(s: Seq<MinuteCandle>, c: MinuteCandle) -> Seq<MinuteCandle>
    decreases s.len(),
{
    if s.len() == 0 || !c.time.earlier(s.last().time) {
        s.push(c)
    } else {
        with_candle(s.drop_last(), c).push(s.last())
    }
}

/// The candles of the rows, in order of time; those of the same time as they came.
pub open spec fn minute_row(rows: Seq<MinutePriceRow>) -> Seq<MinuteCandle>
    decreases rows.len(),
{
    if rows.len() == 0 {
        Seq::empty()
    } else {
        let before = minute_row(rows.drop_last());
        let row = rows.last();
        match candle_at(row, compact_date(row.date@), compact_time(row.hour@)) {
            Some(c) => with_candle(before, c),
            None => before,
        }
    }
}

/// Puts a candle in its place.
pub fn insert_candle(out: &mut Vec<MinuteCandle>, c: MinuteCandle)
    ensures
        final(out)@ == with_candle(old(out)@, c),
{
    let ghost s = out@;
    let mut k: usize = out.len();
    proof {
        assert(s.take(k as int) =~= s);
        assert(s.skip(k as int) =~= Seq::empty());
        assert(with_candle(s, c) =~= with_candle(s.take(k as int), c) + s.skip(k as int));
    }
    while k > 0 && c.time.is_before(out[k - 1].time)
        invariant
            k <= out.len(),
            out@ == s,
            with_candle(s, c) == with_candle(s.take(k as int), c) + s.skip(k as int),
        decreases k,
    {
        proof {
            let part = s.take(k as int);
            assert(part.last() == s[k - 1]);
            assert(part.drop_last() =~= s.take(k - 1));
            assert(with_candle(part, c) == with_candle(s.take(k - 1), c).push(s[k - 1]));
            assert(with_candle(s.take(k - 1), c).push(s[k - 1]) + s.skip(k as int) =~= with_candle(
                s.take(k - 1),
                c,
            ) + s.skip(k - 1));
        }
        k = k - 1;
    }
    proof {
        assert(with_candle(s.take(k as int), c) == s.take(k as int).push(c));
        assert(s.insert(k as int, c) =~= s.take(k as int).push(c) + s.skip(k as int));
    }
    out.insert(k, c);
}

/// The candles of the rows, in order of time.
pub fn minute_candles(rows: &Vec<MinutePriceRow>) -> (r: Vec<MinuteCandle>)
    ensures
        r@ == minute_row(rows@),
{
    let mut out: Vec<MinuteCandle> = Vec::new();
    let mut i: usize = 0;
    while i < rows.len()
        invariant
            i <= rows.len(),
            out@ == minute_row(rows@.take(i as int)),
        decreases rows.len() - i,
    {
        let row: &MinutePriceRow = &rows[i];
        proof {
            assert(rows@.take(i + 1).drop_last() =~= rows@.take(i as int));
        }
        let date: Option<i32> = read_date(row.date.as_str());
        let time: Option<(u32, u32)> = read_time(row.hour.as_str());
        if let Some(c) = row_candle(row, date, time) {
            insert_candle(&mut out, c);
        }
        i = i + 1;
    }
    proof {
        assert(rows@.take(i as int) =~= rows@);
    }
    out
}

/// In order of time.
pub open spec fn by_time(s: Seq<MinuteCandle>) -> bool {
    forall|i: int, j: int|
        0 <= i <= j < s.len() ==> !(#[trigger] s[j]).time.earlier((#[trigger] s[i]).time)
}

/// A candle put in its place leaves the row in order, and nothing is lost.
pub proof fn place_keeps_order(s: Seq<MinuteCandle>, c: MinuteCandle)
    requires
        by_time(s),
    ensures
        by_time(with_candle(s, c)),
        with_candle(s, c).len() == s.len() + 1,
        with_candle(s, c).to_multiset() == s.to_multiset().insert(c),
        with_candle(s, c).len() > 0 ==> (with_candle(s, c).last() == c || (s.len() > 0
            && with_candle(s, c).last() == s.last())),
    decreases s.len(),
{
    broadcast use vstd::seq_lib::group_to_multiset_ensures;

    if s.len() > 0 && c.time.earlier(s.last().time) {
        let prev = s.drop_last();
        place_keeps_order(prev, c);
        let placed = with_candle(prev, c);
        assert(s =~= prev.push(s.last()));
        assert(placed.push(s.last()).to_multiset() =~= s.to_multiset().insert(c));
        assert forall|i: int| 0 <= i < placed.len() implies !s.last().time.earlier(
            (#[trigger] placed[i]).time,
        ) by {
            assert(!placed[placed.len() - 1].time.earlier(placed[i].time));
            if placed.last() != c {
                assert(prev.last() == s[s.len() - 2]);
                assert(!s[s.len() - 1].time.earlier(s[s.len() - 2].time));
            }
        }
    } else {
        assert forall|i: int| 0 <= i < s.len() implies !c.time.earlier((#[trigger] s[i]).time) by {
            assert(!s[s.len() - 1].time.earlier(s[i].time));
        }
    }
}

/// The candles of the rows come in order of time.
pub proof fn minute_row_is_in_order(rows: Seq<MinutePriceRow>)
    ensures
        by_time(minute_row(rows)),
    decreases rows.len(),
{
    if rows.len() > 0 {
        minute_row_is_in_order(rows.drop_last());
        let row = rows.last();
        if let Some(c) = candle_at(row, compact_date(row.date@), compact_time(row.hour@)) {
            place_keeps_order(minute_row(rows.drop_last()), c);
        }
    }
}

/// How many pages of minute prices are read at most.
pub const MAX_PAGES: u32 = 3;

/// What to do after a page of minute prices.
#[derive(Debug, Clone, Copy, PartialEq, Eq, Structural)]
pub enum PageVerdict {
    /// The broker refused the first page: give up.
    Refused,
    /// The page counts for nothing: go on with what there is.
    Done,
    /// Take the page, and go on with what there is.
    LastPage,
    /// Take the page, and ask for the next, from its last row's time on.
    NextPage,
}

/// What to do after a page of minute prices.
pub fn after_page(page: u32, accepted: bool, rows: usize, has_next: bool) -> (r: PageVerdict)
    ensures
        r == (if !accepted {
            if page == 0 {
                PageVerdict::Refused
            } else {
                PageVerdict::Done
            }
        } else if rows == 0 {
            PageVerdict::Done
        } else if !has_next || page + 1 >= MAX_PAGES {
            PageVerdict::LastPage
        } else {
            PageVerdict::NextPage
        }),
{
    if !accepted {
        if page == 0 {
            PageVerdict::Refused
        } else {
            PageVerdict::Done
        }
    } else if rows == 0 {
        PageVerdict::Done
    } else if !has_next || page >= MAX_PAGES - 1 {
        PageVerdict::LastPage
    } else {
        PageVerdict::NextPage
    }
}

/// A price at a time of day.
#[derive(Debug, Clone, Copy, PartialEq, Eq, Structural)]
pub struct PriceTick {
    pub time: TimeOfDay,
    pub price: i64,
}

/// The price that a row of the table stands for: its moment must be readable and of today, and its
/// price positive.
pub open spec fn tick_at(
    moment: Option<(i32, u32, u32)>,
    today: i32,
    close: Option<i64>,
) -> Option<PriceTick> {
    match (moment, close) {
        (Some((day, secs, nanos)), Some(price)) if day == today && price > 0 => Some(
            PriceTick { time: TimeOfDay { secs, nanos }, price },
        ),
        _ => None,
    }
}

/// The price that a row of the table stands for.
pub fn accept_tick(moment: Option<(i32, u32, u32)>, today: i32, close: Option<i64>) -> (r: Option<
    PriceTick,
>)
    ensures
        r == tick_at(moment, today, close),
{
    match (moment, close) {
        (Some((day, secs, nanos)), Some(price)) if day == today && price > 0 => Some(
            PriceTick { time: TimeOfDay { secs, nanos }, price },
        ),
        _ => None,
    }
}

/// The price that a row of the table stands for.  A row has at least six cells; the first is a
/// text of twelve bytes that names a moment, the fifth is the price.
pub open spec fn tick_in_row(row: Seq<(Option<Seq<char>>, Option<i64>)>, today: i32) -> Option<
    PriceTick,
> {
    if row.len() < 6 {
        None
    } else {
        match row[0].0 {
            Some(text) => {
                let name = unquoted(trimmed(text));
                if encode_utf8(name).len() == 12 {
                    tick_at(compact_moment(name), today, row[4].1)
                } else {
                    None
                }
            },
            None => None,
        }
    }
}

/// The price that a row of the table stands for.
pub fn row_tick(row: &Vec<TableCell>, today: i32) -> (r: Option<PriceTick>)
    ensures
        r == tick_in_row(row_view(*row), today),
{
    if row.len() < 6 {
        return None;
    }
    assert(row_view(*row)[0] == cell_view(row@[0]));
    assert(row_view(*row)[4] == cell_view(row@[4]));
    match &row[0].text {
        Some(text) => {
            let bare: String = trim(text.as_str());
            let name: String = trim_quotes(bare.as_str());
            let name: &str = name.as_str();
            if name.as_bytes().len() != 12 {
                None
            } else {
                let moment: Option<(i32, u32, u32)> = read_moment(name);
                accept_tick(moment, today, row[4].number)
            }
        },
        None => None,
    }
}

/// The highest and the lowest of today's prices in a span of the day, in a table with a heading.
pub open spec fn table_range(
    rows: Seq<Seq<(Option<Seq<char>>, Option<i64>)>>,
    today: i32,
    start: TimeOfDay,
    end: TimeOfDay,
) -> Option<(i64, i64)>
    decreases rows.len(),
{
    if rows.len() <= 1 {
        None
    } else {
        let before = table_range(rows.drop_last(), today, start, end);
        match tick_in_row(rows.last(), today) {
            Some(tick) if within_span(tick.time, start, end) => match before {
                None => Some((tick.price, tick.price)),
                Some((h, l)) => Some(
                    (
                        if tick.price > h {
                            tick.price
                        } else {
                            h
                        },
                        if tick.price < l {
                            tick.price
                        } else {
                            l
                        },
                    ),
                ),
            },
            _ => before,
        }
    }
}

/// The highest and the lowest of today's prices in a span of the day, in a table with a heading.
pub fn range_of_table(
    rows: &Vec<Vec<TableCell>>,
    today: i32,
    start: TimeOfDay,
    end: TimeOfDay,
) -> (r: Option<(i64, i64)>)
    ensures
        r == table_range(table_view(Some(*rows))->0, today, start, end),
{
    let ghost view = table_view(Some(*rows))->0;
    let mut found: Option<(i64, i64)> = None;
    let mut i: usize = 1;
    if rows.len() == 0 {
        return None;
    }
    while i < rows.len()
        invariant
            1 <= i <= rows.len(),
            view == table_view(Some(*rows))->0,
            found == table_range(view.take(i as int), today, start, end),
        decreases rows.len() - i,
    {
        proof {
            assert(view.take(i + 1).drop_last() =~= view.take(i as int));
            assert(view.take(i + 1).last() == row_view(rows@[i as int]));
        }
        if let Some(tick) = row_tick(&rows[i], today) {
            if !tick.time.is_before(start) && tick.time.is_before(end) {
                found =
                match found {
                    None => Some((tick.price, tick.price)),
                    Some((h, l)) => Some(
                        (
                            if tick.price > h {
                                tick.price
                            } else {
                                h
                            },
                            if tick.price < l {
                                tick.price
                            } else {
                                l
                            },
                        ),
                    ),
                };
            }
        }
        i = i + 1;
    }
    proof {
        assert(view.take(i as int) =~= view);
    }
    found
}

/// The highest and the lowest of today's prices in a span of the day, in a price page.  The page
/// writes texts in single quotes.
pub fn range_of_page(raw: &str, today: i32, start: TimeOfDay, end: TimeOfDay) -> (r: Option<
    (i64, i64),
>)
    ensures
        r == (match json_table(requoted(raw@)) {
            Some(rows) => table_range(rows, today, start, end),
            None => None,
        }),
{
    let cleaned: String = requote(raw);
    match read_table(cleaned.as_str()) {
        Some(rows) => range_of_table(&rows, today, start, end),
        None => None,
    }
}

/// The opening range by the broker's minute prices; `None` if they do not show it, and a price
/// page has to be asked.
pub fn range_of_rows(rows: &Vec<MinutePriceRow>, start: TimeOfDay, end: TimeOfDay) -> (r: Option<
    (i64, i64),
>)
    ensures
        r == range_in(minute_row(rows@), start, end),
{
    let candles: Vec<MinuteCandle> = minute_candles(rows);
    or_range(&candles, start, end)
}

/// A row of prices makes a candle where its day and its time could be read and the time lies from
/// nine o'clock to half past three, both included.  The candle has the row's prices.
pub proof fn rows_within_the_hours_make_candles(
    row: MinutePriceRow,
    day: i32,
    secs: u32,
    nanos: u32,
    date: Option<i32>,
    time: Option<(u32, u32)>,
)
    ensures
        date is None || time is None ==> candle_at(row, date, time) is None,
        ({
            let got = candle_at(row, Some(day), Some((secs, nanos)));
            let open = 9 * 3600 <= secs && (secs < 15 * 3600 + 30 * 60 || (secs == 15 * 3600 + 30
                * 60 && nanos == 0));
            &&& got is Some <==> open
            &&& got matches Some(c) ==> {
                &&& c.day == day && c.time.secs == secs && c.time.nanos == nanos
                &&& c.open == row.open && c.high == row.high && c.low == row.low
                &&& c.close == row.close
                &&& row.volume >= 0 ==> c.volume == row.volume
            }
        }),
{
}

/// The candles of the rows, as they come.
pub open spec fn read_candles(rows: Seq<MinutePriceRow>) -> Seq<MinuteCandle>
    decreases rows.len(),
{
    if rows.len() == 0 {
        Seq::empty()
    } else {
        let row = rows.last();
        match candle_at(row, compact_date(row.date@), compact_time(row.hour@)) {
            Some(c) => read_candles(rows.drop_last()).push(c),
            None => read_candles(rows.drop_last()),
        }
    }
}

/// The candles of one time.
pub open spec fn at_time(s: Seq<MinuteCandle>, t: TimeOfDay) -> Seq<MinuteCandle> {
    s.filter(|c: MinuteCandle| c.time == t)
}

proof fn one_more_at_time(s: Seq<MinuteCandle>, c: MinuteCandle, t: TimeOfDay)
    ensures
        at_time(s.push(c), t) == (if c.time == t {
            at_time(s, t).push(c)
        } else {
            at_time(s, t)
        }),
{
    reveal(Seq::filter);
    assert(s.push(c).drop_last() =~= s);
    assert(s.push(c).last() == c);
}

proof fn place_is_behind_its_time(s: Seq<MinuteCandle>, c: MinuteCandle, t: TimeOfDay)
    ensures
        at_time(with_candle(s, c), t) == (if c.time == t {
            at_time(s, t).push(c)
        } else {
            at_time(s, t)
        }),
    decreases s.len(),
{
    if s.len() == 0 || !c.time.earlier(s.last().time) {
        one_more_at_time(s, c, t);
    } else {
        place_is_behind_its_time(s.drop_last(), c, t);
        one_more_at_time(with_candle(s.drop_last(), c), s.last(), t);
        one_more_at_time(s.drop_last(), s.last(), t);
        assert(s.drop_last().push(s.last()) =~= s);
    }
}

/// The candles of the rows come in order of time, those of one time as they came; every row that
/// can be read is among them, and nothing else is.
pub proof fn candles_are_sorted_rows(rows: Seq<MinutePriceRow>, t: TimeOfDay, i: int, j: int)
    ensures
        minute_row(rows).to_multiset() == read_candles(rows).to_multiset(),
        at_time(minute_row(rows), t) == at_time(read_candles(rows), t),
        0 <= i <= j < minute_row(rows).len() ==> {
            let (a, b) = (minute_row(rows)[i].time, minute_row(rows)[j].time);
            a.secs < b.secs || (a.secs == b.secs && a.nanos <= b.nanos)
        },
    decreases rows.len(),
{
    broadcast use vstd::seq_lib::group_to_multiset_ensures;

    minute_row_is_in_order(rows);
    if rows.len() > 0 {
        let before = rows.drop_last();
        candles_are_sorted_rows(before, t, 0, 0);
        minute_row_is_in_order(before);
        let row = rows.last();
        if let Some(c) = candle_at(row, compact_date(row.date@), compact_time(row.hour@)) {
            place_keeps_order(minute_row(before), c);
            place_is_behind_its_time(minute_row(before), c, t);
            one_more_at_time(read_candles(before), c, t);
            assert(read_candles(rows) == read_candles(before).push(c));
            assert(read_candles(rows).to_multiset() =~= read_candles(before).to_multiset().insert(
                c,
            ));
        }
    }
    if 0 <= i <= j < minute_row(rows).len() {
        assert(!minute_row(rows)[j].time.earlier(minute_row(rows)[i].time));
    }
}

/// A row of the table tells a price where its moment could be read and is of today, and its price
/// is positive: that price, at that time.
pub proof fn todays_prices_are_taken(
    day: i32,
    secs: u32,
    nanos: u32,
    today: i32,
    price: i64,
    moment: Option<(i32, u32, u32)>,
    close: Option<i64>,
)
    ensures
        moment is None || close is None ==> tick_at(moment, today, close) is None,
        tick_at(Some((day, secs, nanos)), today, Some(price)) == (if day == today && price >= 1 {
            Some(PriceTick { time: TimeOfDay { secs, nanos }, price })
        } else {
            None
        }),
{
}

/// The moment of a row stands in its first cell, its price in its fifth, and a row has six at least.
pub proof fn rows_have_moment_and_price(
    row: Seq<(Option<Seq<char>>, Option<i64>)>,
    text: Seq<char>,
    today: i32,
)
    ensures
        row.len() <= 5 ==> tick_in_row(row, today) is None,
        row.len() >= 6 && row[0].0 is None ==> tick_in_row(row, today) is None,
        row.len() >= 6 && row[0].0 == Some(text) ==> {
            let name = unquoted(trimmed(text));
            &&& encode_utf8(name).len() != 12 ==> tick_in_row(row, today) is None
            &&& encode_utf8(name).len() == 12 ==> match (compact_moment(name), row[4].1) {
                (Some((day, secs, nanos)), Some(price)) => tick_in_row(row, today) == (if day
                    == today && price > 0 {
                    Some(PriceTick { time: TimeOfDay { secs, nanos }, price })
                } else {
                    None
                }),
                _ => tick_in_row(row, today) is None,
            }
        },
{
}

/// A row tells a price within a span of the day.
pub open spec fn told_in_span(
    row: Seq<(Option<Seq<char>>, Option<i64>)>,
    today: i32,
    from: u32,
    to: u32,
) -> bool {
    tick_in_row(row, today) is Some && from <= tick_in_row(row, today)->0.time.secs < to
}

/// The range of a table is that of the prices that its rows behind the heading tell within the
/// span: none lies outside, and both ends are reached.
pub proof fn table_range_is_that_of_its_prices(
    rows: Seq<Seq<(Option<Seq<char>>, Option<i64>)>>,
    today: i32,
    start: TimeOfDay,
    end: TimeOfDay,
)
    requires
        start.nanos == 0,
        end.nanos == 0,
    ensures
        match table_range(rows, today, start, end) {
            None => forall|i: int|
                1 <= i < rows.len() ==> !told_in_span(
                    #[trigger] rows[i],
                    today,
                    start.secs,
                    end.secs,
                ),
            Some((h, l)) => {
                &&& forall|i: int|
                    1 <= i < rows.len() && told_in_span(
                        #[trigger] rows[i],
                        today,
                        start.secs,
                        end.secs,
                    ) ==> l <= tick_in_row(rows[i], today)->0.price <= h
                &&& exists|i: int|
                    1 <= i < rows.len() && told_in_span(
                        #[trigger] rows[i],
                        today,
                        start.secs,
                        end.secs,
                    ) && tick_in_row(rows[i], today)->0.price == h
                &&& exists|i: int|
                    1 <= i < rows.len() && told_in_span(
                        #[trigger] rows[i],
                        today,
                        start.secs,
                        end.secs,
                    ) && tick_in_row(rows[i], today)->0.price == l
            },
        },
    decreases rows.len(),
{
    if rows.len() > 1 {
        let before = rows.drop_last();
        table_range_is_that_of_its_prices(before, today, start, end);
        let n = rows.len() - 1;
        assert forall|i: int| 1 <= i < n implies #[trigger] rows[i] == before[i] by {}
        let was = table_range(before, today, start, end);
        let now = table_range(rows, today, start, end);
        let last_told = told_in_span(rows[n], today, start.secs, end.secs);
        assert(rows.last() == rows[n]);
        if let Some((h, l)) = was {
            let a = choose|i: int|
                1 <= i < before.len() && told_in_span(
                    #[trigger] before[i],
                    today,
                    start.secs,
                    end.secs,
                ) && tick_in_row(before[i], today)->0.price == h;
            let b = choose|i: int|
                1 <= i < before.len() && told_in_span(
                    #[trigger] before[i],
                    today,
                    start.secs,
                    end.secs,
                ) && tick_in_row(before[i], today)->0.price == l;
            assert(rows[a] == before[a] && rows[b] == before[b]);
            assert(told_in_span(rows[a], today, start.secs, end.secs));
            assert(told_in_span(rows[b], today, start.secs, end.secs));
        }
        if last_told {
            assert(told_in_span(rows[n], today, start.secs, end.secs));
        }
        if now is None {
            assert forall|i: int| 1 <= i < rows.len() implies !told_in_span(
                #[trigger] rows[i],
                today,
                start.secs,
                end.secs,
            ) by {
                if i < n {
                    assert(rows[i] == before[i]);
                }
            }
        } else {
            let (h, l) = now->0;
            assert forall|i: int| 1 <= i < rows.len() && told_in_span(
                #[trigger] rows[i],
                today,
                start.secs,
                end.secs,
            ) implies l <= tick_in_row(rows[i], today)->0.price <= h by {
                if i < n {
                    assert(rows[i] == before[i]);
                }
            }
        }
    }
}

/// The market is open from nine o'clock to half past three, and three pages of prices are read.
pub proof fn market_hours_and_pages(secs: u32, page: u32)
    ensures
        secs < MARKET_OPEN <==> secs < 9 * 3600,
        secs > MARKET_CLOSE <==> secs > 15 * 3600 + 30 * 60,
        page < MAX_PAGES <==> page < 3,
{
}

} // verus!
