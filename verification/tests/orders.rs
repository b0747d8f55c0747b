//! Limits on orders and trades, and waiting for the session.

use chrono::{Datelike, NaiveDate};
use live_runner::clock::{LocalDateTime, TimeOfDay};
use live_runner::order_guard::{repeats_too_often, update_order_queue_and_count_dup};
use live_runner::session::{compute_session_wait_deadline, seconds_until, wait_step, WaitStep};
use live_runner::ticks::round_to_etf_tick;
use live_runner::trade_gate::GlobalTradeGate;
use std::collections::VecDeque;

fn hms(h: u32, m: u32, s: u32) -> TimeOfDay {
    TimeOfDay { secs: h * 3600 + m * 60 + s, nanos: 0 }
}

fn day(y: i32, m: u32, d: u32) -> i32 {
    NaiveDate::from_ymd_opt(y, m, d).unwrap().num_days_from_ce()
}

fn dt(y: i32, m: u32, d: u32, hh: u32, mm: u32) -> LocalDateTime {
    LocalDateTime { day: day(y, m, d), time: hms(hh, mm, 0) }
}

fn send(q: &mut VecDeque<(TimeOfDay, i64)>, now: TimeOfDay, price: i64) -> usize {
    let tolerance = (price as f64 * 0.001) as i64;
    update_order_queue_and_count_dup(q, now, price, tolerance)
}

#[test]
fn new_sets_max_with_floor_of_one() {
    let g = GlobalTradeGate::new(0);
    assert_eq!(g.max, 1);
}

#[test]
fn can_enter_returns_true_until_limit_reached() {
    let mut g = GlobalTradeGate::new(2);
    let today = day(2026, 4, 16);
    assert!(g.can_enter(today));
    g.record_trade(today);
    assert!(g.can_enter(today));
    g.record_trade(today);
    assert!(!g.can_enter(today));
}

#[test]
fn rolls_counter_on_date_change() {
    let mut g = GlobalTradeGate::new(1);
    let d1 = day(2026, 4, 16);
    let d2 = day(2026, 4, 17);
    g.record_trade(d1);
    assert!(!g.can_enter(d1));
    assert!(g.can_enter(d2));
    assert_eq!(g.snapshot(d2).0, 0);
}

#[test]
fn record_trade_increments_count() {
    let mut g = GlobalTradeGate::new(3);
    let today = day(2026, 4, 16);
    g.record_trade(today);
    g.record_trade(today);
    assert_eq!(g.snapshot(today), (2, 3));
}

#[test]
fn snapshot_initial_state_returns_zero() {
    let mut g = GlobalTradeGate::new(1);
    let today = day(2026, 4, 16);
    assert_eq!(g.snapshot(today), (0, 1));
}

#[test]
fn single_order_has_count_one() {
    let mut q = VecDeque::new();
    let dup = send(&mut q, hms(10, 0, 0), 94_465);
    assert_eq!(dup, 1);
    assert_eq!(q.len(), 1);
}

#[test]
fn three_same_price_triggers_count_three() {
    let mut q = VecDeque::new();
    send(&mut q, hms(10, 0, 0), 94_465);
    send(&mut q, hms(10, 1, 0), 94_465);
    let dup = send(&mut q, hms(10, 2, 0), 94_465);
    assert_eq!(dup, 3);
    assert!(repeats_too_often(dup));
    assert!(!repeats_too_often(2));
}

#[test]
fn prices_within_0_1_pct_tolerance_counted_as_same() {
    let mut q = VecDeque::new();
    send(&mut q, hms(10, 0, 0), 94_400);
    send(&mut q, hms(10, 0, 30), 94_540);
    let dup = send(&mut q, hms(10, 1, 0), 94_465);
    assert_eq!(dup, 3);
}

#[test]
fn prices_outside_tolerance_not_counted() {
    let mut q = VecDeque::new();
    send(&mut q, hms(10, 0, 0), 94_465);
    send(&mut q, hms(10, 1, 0), 95_000);
    let dup = send(&mut q, hms(10, 2, 0), 94_465);
    assert_eq!(dup, 2);
}

#[test]
fn old_entries_over_5min_expire() {
    let mut q = VecDeque::new();
    send(&mut q, hms(10, 0, 0), 94_465);
    send(&mut q, hms(10, 2, 0), 94_465);
    let dup = send(&mut q, hms(10, 6, 0), 94_465);
    assert_eq!(dup, 2);
    assert_eq!(q.len(), 2);
}

#[test]
fn queue_capped_at_10_entries() {
    let mut q = VecDeque::new();
    for i in 0..15 {
        send(&mut q, hms(10, 0, i), 1_000 + (i as i64) * 10_000);
    }
    assert!(q.len() <= 10);
}

#[test]
fn test_round_to_etf_tick() {
    assert_eq!(round_to_etf_tick(1_524), 1_524);
    assert_eq!(round_to_etf_tick(1_519), 1_519);
    assert_eq!(round_to_etf_tick(4_999), 5_000);

    assert_eq!(round_to_etf_tick(5_000), 5_000);
    assert_eq!(round_to_etf_tick(5_002), 5_000);
    assert_eq!(round_to_etf_tick(5_003), 5_005);

    assert_eq!(round_to_etf_tick(92_794), 92_800);
    assert_eq!(round_to_etf_tick(92_792), 92_800);
    assert_eq!(round_to_etf_tick(91_500), 91_500);
    assert_eq!(round_to_etf_tick(92_102), 92_100);
}

#[test]
fn deadline_is_today_when_target_still_in_future() {
    let now = dt(2026, 4, 24, 1, 2);
    assert_eq!(
        compute_session_wait_deadline(now, hms(9, 0, 0), hms(15, 25, 0)),
        dt(2026, 4, 24, 9, 0)
    );
}

#[test]
fn deadline_rolls_to_next_day_when_target_already_passed_after_session() {
    let now = dt(2026, 4, 23, 22, 31);
    assert_eq!(
        compute_session_wait_deadline(now, hms(9, 0, 0), hms(15, 25, 0)),
        dt(2026, 4, 24, 9, 0)
    );
}

#[test]
fn deadline_is_immediate_when_market_open_milestone_already_passed() {
    let now = dt(2026, 4, 24, 13, 39);
    assert_eq!(compute_session_wait_deadline(now, hms(9, 0, 0), hms(15, 25, 0)), now);
}

#[test]
fn deadline_waits_for_or_end_when_it_is_still_future_today() {
    let now = dt(2026, 4, 24, 9, 1);
    assert_eq!(
        compute_session_wait_deadline(now, hms(9, 5, 0), hms(15, 25, 0)),
        dt(2026, 4, 24, 9, 5)
    );
}

#[test]
fn deadline_rolls_after_session_end() {
    let now = dt(2026, 4, 24, 16, 0);
    assert_eq!(
        compute_session_wait_deadline(now, hms(9, 0, 0), hms(15, 25, 0)),
        dt(2026, 4, 25, 9, 0)
    );
}

#[test]
fn deadline_now_equals_target_returns_today() {
    let now = dt(2026, 4, 24, 9, 0);
    assert_eq!(
        compute_session_wait_deadline(now, hms(9, 0, 0), hms(15, 25, 0)),
        dt(2026, 4, 24, 9, 0)
    );
}

#[test]
fn waiting_goes_in_slices() {
    let now = dt(2026, 4, 24, 8, 0);
    let deadline = dt(2026, 4, 24, 9, 0);
    let before = |secs: u32, nanos: u32| LocalDateTime {
        day: deadline.day,
        time: TimeOfDay { secs: deadline.time.secs - secs, nanos },
    };
    assert_eq!(seconds_until(now, deadline), 3_600);
    assert_eq!(wait_step(false, now, deadline), WaitStep::Sleep(10));
    assert_eq!(wait_step(false, before(4, 0), deadline), WaitStep::Sleep(4));
    assert_eq!(seconds_until(before(4, 1), deadline), 3);
    assert_eq!(wait_step(false, before(4, 1), deadline), WaitStep::Sleep(3));
    assert_eq!(wait_step(false, before(1, 5), deadline), WaitStep::Sleep(1));
    assert_eq!(seconds_until(deadline, before(4, 1)), -3);
    assert_eq!(seconds_until(deadline, dt(2026, 4, 25, 8, 0)), 23 * 3_600);
    assert_eq!(wait_step(true, now, deadline), WaitStep::Over);
    assert_eq!(wait_step(false, deadline, deadline), WaitStep::Over);
}
