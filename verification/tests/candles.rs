//! Candles, the opening range, and prices from elsewhere.

use chrono::{Datelike, NaiveDate};
use live_runner::candles::{aggregate, aggregate_completed_bars, candles_to_search, or_range};
use live_runner::canonical::{
    available_or_stages, cached_candles, canonical_candles, parse_clock, split_candles,
    CompletedCandle, StoredStages,
};
use live_runner::clock::TimeOfDay;
use live_runner::feeds::{
    accept_tick, after_page, insert_candle, minute_candles, range_of_page, range_of_rows,
    row_candle, MinutePriceRow, PageVerdict, PriceTick,
};
use live_runner::types::MinuteCandle;

fn hms(h: u32, m: u32, s: u32) -> TimeOfDay {
    TimeOfDay { secs: h * 3600 + m * 60 + s, nanos: 0 }
}

fn day(y: i32, m: u32, d: u32) -> i32 {
    NaiveDate::from_ymd_opt(y, m, d).unwrap().num_days_from_ce()
}

fn minute(h: u32, m: u32) -> MinuteCandle {
    MinuteCandle {
        day: day(2026, 4, 16),
        time: hms(h, m, 0),
        open: 100,
        high: 110,
        low: 90,
        close: 105,
        volume: 1,
    }
}

#[test]
fn drops_last_bucket_when_it_is_still_open() {
    let candles = vec![
        minute(9, 45),
        minute(9, 46),
        minute(9, 47),
        minute(9, 48),
        minute(9, 49),
        minute(9, 50),
        minute(9, 51),
        minute(9, 52),
        minute(9, 53),
        minute(9, 54),
        minute(9, 55),
        minute(9, 56),
        minute(9, 57),
        minute(9, 58),
        minute(9, 59),
        minute(10, 0),
        minute(10, 1),
        minute(10, 2),
    ];
    let aggregated = aggregate_completed_bars(&candles, 5, hms(10, 3, 0));
    let times: Vec<_> = aggregated.iter().map(|c| c.time).collect();
    assert_eq!(times, vec![hms(9, 45, 0), hms(9, 50, 0), hms(9, 55, 0)]);
}

#[test]
fn keeps_last_bucket_after_boundary_passes() {
    let candles = vec![
        minute(9, 55),
        minute(9, 56),
        minute(9, 57),
        minute(9, 58),
        minute(9, 59),
        minute(10, 0),
        minute(10, 1),
        minute(10, 2),
        minute(10, 3),
        minute(10, 4),
    ];
    let aggregated = aggregate_completed_bars(&candles, 5, hms(10, 5, 0));
    let times: Vec<_> = aggregated.iter().map(|c| c.time).collect();
    assert_eq!(times, vec![hms(9, 55, 0), hms(10, 0, 0)]);
}

#[test]
fn longer_candles_hold_all_of_the_shorter_ones() {
    let mut a = minute(9, 0);
    a.open = 7;
    a.low = 3;
    let mut b = minute(9, 4);
    b.high = 200;
    b.close = 150;
    b.volume = 9;
    let bars = aggregate(&vec![a, b, minute(9, 5)], 5);
    assert_eq!(bars.len(), 2);
    assert_eq!(
        bars[0],
        MinuteCandle { time: hms(9, 0, 0), open: 7, high: 200, low: 3, close: 150, volume: 10, ..a }
    );
    assert_eq!(bars[1].time, hms(9, 5, 0));
}

fn candle(
    time: &str,
    open: i64,
    high: i64,
    low: i64,
    close: i64,
    interval_min: u32,
) -> CompletedCandle {
    CompletedCandle {
        time: time.to_string(),
        open,
        high,
        low,
        close,
        volume: 0,
        is_realtime: interval_min == 1,
        interval_min,
    }
}

#[test]
fn past_bucket_prefers_backfill_over_ws() {
    let now = hms(10, 0, 0);
    let bars = vec![
        candle("09:40", 102330, 102810, 102250, 102760, 1),
        candle("09:41", 102760, 102790, 102700, 102750, 1),
        candle("09:42", 102750, 102790, 102700, 102730, 1),
        candle("09:43", 102730, 102780, 102700, 102740, 1),
        candle("09:44", 102740, 102810, 102700, 102760, 1),
        candle("09:40", 102330, 102830, 102250, 102760, 5),
    ];
    let merged = canonical_candles(&bars, day(2026, 4, 17), now);
    assert_eq!(merged.len(), 1);
    assert_eq!(merged[0].high, 102830);
}

#[test]
fn past_bucket_falls_back_to_ws_if_no_backfill() {
    let now = hms(10, 0, 0);
    let bars = vec![
        candle("09:40", 102330, 102810, 102250, 102760, 1),
        candle("09:41", 102760, 102820, 102700, 102750, 1),
        candle("09:42", 102750, 102830, 102700, 102730, 1),
    ];
    let merged = canonical_candles(&bars, day(2026, 4, 17), now);
    assert_eq!(merged.len(), 1);
    assert_eq!(merged[0].high, 102830);
}

#[test]
fn current_bucket_uses_ws_only() {
    let now = hms(9, 57, 0);
    let bars = vec![
        candle("09:55", 102300, 102400, 102250, 102350, 1),
        candle("09:56", 102350, 102380, 102300, 102330, 1),
    ];
    let merged = canonical_candles(&bars, day(2026, 4, 17), now);
    assert!(merged.is_empty());
}

#[test]
fn canonical_candles_come_in_order_of_time() {
    let now = hms(11, 0, 0);
    let bars = vec![
        candle("10:00", 1, 2, 1, 2, 5),
        candle("09:30", 3, 4, 3, 4, 1),
        candle("09:45", 5, 6, 5, 6, 5),
        candle("09:45", 7, 8, 7, 8, 5),
        candle("10:58", 7, 8, 7, 8, 5),
    ];
    let merged = canonical_candles(&bars, 1, now);
    let opens: Vec<_> = merged.iter().map(|c| (c.time, c.open)).collect();
    assert_eq!(opens, vec![(hms(9, 30, 0), 3), (hms(9, 45, 0), 7), (hms(10, 0, 0), 1)]);
}

#[test]
fn clock_times_are_read() {
    assert_eq!(parse_clock("09:40", false), Some(hms(9, 40, 0)));
    assert_eq!(parse_clock("9:4:59", false), Some(hms(9, 4, 0)));
    assert_eq!(parse_clock("24:00", true), None);
    assert_eq!(parse_clock("x:07", true), Some(hms(0, 7, 0)));
    assert_eq!(parse_clock("x:07", false), None);
    assert_eq!(parse_clock("11", true), Some(hms(11, 0, 0)));
    assert_eq!(parse_clock("11", false), None);
}

#[test]
fn feed_candles_are_picked() {
    let bars = vec![
        candle("09:40", 1, 1, 1, 1, 1),
        candle("junk", 2, 2, 2, 2, 5),
        candle("09:45", 3, 3, 3, 3, 5),
    ];
    let (all, live) = split_candles(&bars, 5);
    assert_eq!(all.len(), 3);
    assert_eq!(live.len(), 1);
    assert_eq!(all[1].time, hms(0, 0, 0));
    assert_eq!(cached_candles(&bars, 5).len(), 2);
}

#[test]
fn opening_ranges_are_available_once_they_are_over() {
    let mut low = minute(9, 2);
    low.low = 50;
    let mut high = minute(9, 20);
    high.high = 500;
    let candles = vec![minute(9, 0), low, high];
    assert_eq!(or_range(&candles, hms(9, 0, 0), hms(9, 15, 0)), Some((110, 50)));
    assert_eq!(or_range(&candles, hms(10, 0, 0), hms(10, 15, 0)), None);

    let stored = StoredStages { five: None, fifteen: None, thirty: None };
    let stages = available_or_stages(&candles, hms(9, 0, 0), hms(9, 15, 0), stored);
    assert_eq!(
        stages,
        vec![("5m", 110, 50, hms(9, 5, 0)), ("15m", 110, 50, hms(9, 15, 0))]
    );
    let stored = StoredStages { five: Some((9, 8)), fifteen: None, thirty: Some((7, 6)) };
    let stages = available_or_stages(&Vec::new(), hms(9, 0, 0), hms(9, 30, 0), stored);
    assert_eq!(stages, vec![("5m", 9, 8, hms(9, 5, 0)), ("30m", 7, 6, hms(9, 30, 0))]);
}

#[test]
fn a_search_starts_after_what_was_searched() {
    let candles = vec![minute(9, 10), minute(9, 15), minute(9, 20), minute(9, 25)];
    assert_eq!(candles_to_search(&candles, hms(9, 15, 0), None).len(), 3);
    let rest = candles_to_search(&candles, hms(9, 15, 0), Some(hms(9, 20, 0)));
    assert_eq!(rest, vec![minute(9, 25)]);
}

fn price_row(date: &str, hour: &str, close: i64) -> MinutePriceRow {
    MinutePriceRow {
        date: date.to_string(),
        hour: hour.to_string(),
        open: close,
        high: close + 1,
        low: close - 1,
        close,
        volume: 3,
    }
}

#[test]
fn minute_prices_are_read_and_sorted() {
    let rows = vec![
        price_row("20260416", "091000", 20),
        price_row("20260416", "090500", 10),
        price_row("20260416", "153001", 30),
        price_row("20260416", "085959", 40),
        price_row("2026-4-16", "090500", 50),
        price_row("20260416", "oops", 60),
        price_row("20260416", "153000", 70),
    ];
    let candles = minute_candles(&rows);
    let seen: Vec<_> = candles.iter().map(|c| (c.day, c.time, c.close)).collect();
    let d = day(2026, 4, 16);
    assert_eq!(
        seen,
        vec![(d, hms(9, 5, 0), 10), (d, hms(9, 10, 0), 20), (d, hms(15, 30, 0), 70)]
    );
    assert_eq!(range_of_rows(&rows, hms(9, 0, 0), hms(9, 15, 0)), Some((21, 9)));
    assert_eq!(range_of_rows(&rows, hms(10, 0, 0), hms(10, 15, 0)), None);
}

#[test]
fn a_minute_needs_its_day_and_its_time() {
    let row = price_row("20260416", "090500", 10);
    let got = row_candle(&row, Some(7), Some((32_700, 0))).unwrap();
    assert_eq!((got.day, got.time, got.high, got.volume), (7, hms(9, 5, 0), 11, 3));
    assert_eq!(row_candle(&row, None, Some((32_700, 0))), None);
    assert_eq!(row_candle(&row, Some(7), None), None);
    assert_eq!(row_candle(&row, Some(7), Some((32_399, 999))), None);
}

#[test]
fn candles_of_the_same_time_keep_their_order() {
    let mut out = Vec::new();
    for (h, m, close) in [(9, 5, 1), (9, 0, 2), (9, 5, 3), (9, 0, 4)] {
        let mut c = minute(h, m);
        c.close = close;
        insert_candle(&mut out, c);
    }
    let closes: Vec<_> = out.iter().map(|c| c.close).collect();
    assert_eq!(closes, vec![2, 4, 1, 3]);
}

#[test]
fn pages_of_minute_prices() {
    assert_eq!(after_page(0, false, 0, false), PageVerdict::Refused);
    assert_eq!(after_page(1, false, 0, false), PageVerdict::Done);
    assert_eq!(after_page(0, true, 0, true), PageVerdict::Done);
    assert_eq!(after_page(0, true, 30, false), PageVerdict::LastPage);
    assert_eq!(after_page(0, true, 30, true), PageVerdict::NextPage);
    assert_eq!(after_page(2, true, 30, true), PageVerdict::LastPage);
}

#[test]
fn price_pages_are_read() {
    let page = "[['date', 'open', 'high', 'low', 'close', 'volume'],\n\
        [\"202604160901\", null, null, null, 100, 5],\n\
        [\" 202604160914 \", null, null, null, 90, 5],\n\
        [\"202604160915\", null, null, null, 500, 5],\n\
        [\"202604150905\", null, null, null, 700, 5],\n\
        [\"202604160905\", null, null, null, 0, 5],\n\
        [\"2026041609\", null, null, null, 800, 5],\n\
        [\"202604160907\", null, null, 900, 5],\n\
        [\"202604160908\", null, null, null, \"950\", 5]]";
    let got = range_of_page(page, day(2026, 4, 16), hms(9, 0, 0), hms(9, 15, 0));
    assert_eq!(got, Some((100, 90)));
    assert_eq!(range_of_page(page, day(2026, 4, 17), hms(9, 0, 0), hms(9, 15, 0)), None);
    assert_eq!(range_of_page("nonsense", day(2026, 4, 16), hms(9, 0, 0), hms(9, 15, 0)), None);
}

#[test]
fn prices_of_today_count() {
    let tick = PriceTick { time: hms(9, 1, 0), price: 100 };
    assert_eq!(accept_tick(Some((5, 32_460, 0)), 5, Some(100)), Some(tick));
    assert_eq!(accept_tick(Some((5, 32_460, 0)), 6, Some(100)), None);
    assert_eq!(accept_tick(Some((5, 32_460, 0)), 5, Some(0)), None);
    assert_eq!(accept_tick(None, 5, Some(100)), None);
    assert_eq!(accept_tick(Some((5, 32_460, 0)), 5, None), None);
}
