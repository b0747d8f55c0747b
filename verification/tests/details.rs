//! Small decisions.

use live_runner::armed::ArmedWaitOutcome;
use live_runner::candles::bucket_start;
use live_runner::clock::{LocalDateTime, TimeOfDay, UtcTime};
use live_runner::close::SubmitReply;
use live_runner::config::LiveRunnerConfig;
use live_runner::entry::{EntryFlow, EntryOutcome, EntryReply};
use live_runner::execution_state::ExecutionState;
use live_runner::feeds::{range_of_table, row_tick, TableCell};
use live_runner::journal::{JournalPhase, JournalReason, JournalResolution};
use live_runner::manage::time_stop_breached_by_minutes;
use live_runner::poll::{AbortReason, EntryResult};
use live_runner::position_lock::PositionLockState;
use live_runner::preflight::{refresh_preflight_metadata, ExternalGates, IndexRegime};
use live_runner::quotes::evaluate_spread_gate;
use live_runner::records::{bracket_around, Bracket, EntryTerms};
use live_runner::runner_state::RunnerState;
use live_runner::signals::target_price;
use live_runner::take_profit::finalize_tp_full_fill;
use live_runner::trade_gate::GlobalTradeGate;
use live_runner::trailing::{update_best_and_trailing, Trail};
use live_runner::types::{ExitReason, HoldingReply, OrderSide, Position, PositionSide};

fn hms(h: u32, m: u32, s: u32) -> TimeOfDay {
    TimeOfDay { secs: h * 3600 + m * 60 + s, nanos: 0 }
}

fn terms() -> EntryTerms {
    EntryTerms {
        stock_code: "122630".to_string(),
        side: PositionSide::Long,
        trigger_price: 10_000,
        stop_loss: 9_900,
        take_profit: 10_200,
        or_high: 9_950,
        or_low: 9_800,
        stage_name: "15m".to_string(),
        signal_id: "sig".to_string(),
        entry_mode: "limit_passive".to_string(),
    }
}

fn position() -> Position {
    let at = LocalDateTime { day: 1, time: hms(10, 0, 0) };
    let bracket = Bracket { stop_loss: 9_905, take_profit: 10_205 };
    terms().opened_position(10_005, 7, bracket, at, 12, &None)
}

#[test]
fn watch_reasons_carry_their_detail() {
    assert_eq!(ArmedWaitOutcome::Ready.journal_reason(), "ready");
    assert_eq!(ArmedWaitOutcome::Aborted("armed_degraded").journal_reason(), "aborted:armed_degraded");
    assert_eq!(ArmedWaitOutcome::PreflightFailed("").journal_reason(), "preflight_failed");
}

#[test]
fn entries_come_to_something() {
    let retry = Some(1_500);
    let failed = EntryResult::Failed;
    for (outcome, with_retry, without) in [
        (EntryOutcome::Filled { qty: 1, price: 2 }, EntryResult::Entered, EntryResult::Entered),
        (EntryOutcome::PendingNotSaved, EntryResult::Manual, EntryResult::Manual),
        (EntryOutcome::CancelUnverified, EntryResult::Manual, EntryResult::Manual),
        (EntryOutcome::Cancelled { preempted: true }, EntryResult::Preempted, EntryResult::Preempted),
        (EntryOutcome::Cancelled { preempted: false }, failed, failed),
        (EntryOutcome::BalanceUnreadable, failed, failed),
        (EntryOutcome::SubmitFailed, EntryResult::Retryable { delay_ms: 1_500 }, failed),
        (EntryOutcome::Rejected, EntryResult::Retryable { delay_ms: 1_500 }, failed),
    ] {
        assert_eq!(EntryResult::of(outcome, retry), with_retry);
        assert_eq!(EntryResult::of(outcome, None), without);
    }
    assert!(AbortReason::DriftExceeded.advances_search());
    assert!(!AbortReason::Preempted.advances_search());
}

#[test]
fn a_filled_entry_is_noted() {
    let mut flow = EntryFlow::begin(10_000, 10_005, 5, 3_000, true);
    let _ = flow.step(EntryReply::Holding(HoldingReply::Held { qty: 2, avg: None }));
    let _ = flow.step(EntryReply::Submitted(SubmitReply::Accepted));
    let note = flow.filled_note(5, 10_003);
    assert_eq!(note.phase, JournalPhase::EntryFinalFill);
    assert_eq!(note.reason, JournalReason::EntryFilled);
    assert_eq!(note.resolution, JournalResolution::Blank);
    assert_eq!((note.holdings_before, note.holdings_after), (Some(2), Some(7)));
    assert_eq!((note.filled_price, note.filled_qty), (Some(10_003), Some(5)));
    assert_eq!((note.intended_price, note.submitted_price), (Some(10_000), Some(10_005)));
}

#[test]
fn a_full_take_profit_closes_the_position() {
    let (trade, meta, note) = finalize_tp_full_fill(&position(), 10_205, 10_210, hms(11, 0, 0));
    assert_eq!((trade.exit_price, trade.take_profit, trade.quantity), (10_210, 10_205, 7));
    assert_eq!(trade.exit_reason, ExitReason::TakeProfit);
    assert_eq!(meta.exit_resolution_source, "tp_limit");
    assert!(!meta.fill_price_unknown);
    assert_eq!(note.phase.label(), "exit_final_fill");
    assert_eq!(note.reason.text(), "tp_full_fill");
    assert_eq!((note.holdings_before, note.holdings_after), (Some(7), Some(0)));
    assert_eq!(note.resolution.label(), "tp_limit");
}

#[test]
fn gates_are_looked_at_together() {
    let cutoff = hms(15, 20, 0);
    let now = UtcTime { secs: 1_000, nanos: 0 };
    let spread = evaluate_spread_gate(Some((10_005, 10_000)), true, 3);
    let (open, stale) =
        refresh_preflight_metadata(cutoff, true, None, spread, None, now, 500, true, "122630");
    assert!(open.all_ok() && !stale);
    assert!(open.gate_bits().is_open());
    assert!(open.active_instrument_ok("122630") && !open.active_instrument_ok("114800"));
    assert!(open.entry_cutoff_ok(hms(15, 19, 59)) && !open.entry_cutoff_ok(cutoff));

    let spread = evaluate_spread_gate(Some((10_005, 10_000)), true, 3);
    let issue = Some("crossed".to_string());
    let (closed, _) =
        refresh_preflight_metadata(cutoff, true, issue, spread, None, now, 500, true, "122630");
    assert!(!closed.all_ok());
    assert_eq!(closed.gate_bits().block_reason(), "quote_invalid");

    let gates = ExternalGates {
        nav_gate_ok: true,
        index_regime: IndexRegime::Bullish,
        active_instrument: None,
        subscription_health_ok: None,
        spread_ok_override: None,
        updated_at: Some(UtcTime { secs: 0, nanos: 0 }),
    };
    let spread = evaluate_spread_gate(Some((10_005, 10_000)), true, 3);
    let (old, stale) =
        refresh_preflight_metadata(cutoff, true, None, spread, Some(&gates), now, 500, true, "122630");
    assert!(stale && !old.all_ok());
}

#[test]
fn exit_plans_are_kept_in_bounds() {
    let mut cfg = LiveRunnerConfig::default();
    cfg.exit_ws_notice_timeout_ms = 1;
    cfg.exit_rest_retries = 0;
    cfg.exit_rest_retry_interval_ms = 99_999;
    cfg.exit_balance_retries = 99;
    cfg.exit_balance_retry_interval_ms = 0;
    assert_eq!(cfg.exit_notice_timeout(), 500);
    assert_eq!(cfg.exit_rest_plan(), (1, 5_000));
    assert_eq!(cfg.exit_balance_plan(), (10, 200));
}

fn cell(text: Option<&str>, number: Option<i64>) -> TableCell {
    TableCell { text: text.map(|t| t.to_string()), number }
}

fn tick_row(when: &str, close: Option<i64>) -> Vec<TableCell> {
    let mut row = vec![cell(Some(when), None)];
    for _ in 0..3 {
        row.push(cell(None, Some(1)));
    }
    row.push(cell(None, close));
    row.push(cell(None, Some(9)));
    row
}

#[test]
fn ticks_of_a_table_are_read() {
    // 8 April 2026.
    let today = 739_714;
    let tick = row_tick(&tick_row(" \"202604080901\" ", Some(100)), today).unwrap();
    assert_eq!((tick.time, tick.price), (hms(9, 1, 0), 100));
    assert!(row_tick(&tick_row("202604070901", Some(100)), today).is_none());
    assert!(row_tick(&tick_row("202604080901", Some(0)), today).is_none());
    assert!(row_tick(&tick_row("202604080901", None), today).is_none());
    assert!(row_tick(&tick_row("2026040809011", Some(100)), today).is_none());
    let rows = vec![
        tick_row("202604080901", Some(1)),
        tick_row("202604080902", Some(7)),
        tick_row("202604080903", Some(5)),
        tick_row("202604080915", Some(9)),
    ];
    assert_eq!(range_of_table(&rows, today, hms(9, 0, 0), hms(9, 15, 0)), Some((7, 5)));
    assert_eq!(range_of_table(&rows, today, hms(9, 20, 0), hms(9, 30, 0)), None);
}

#[test]
fn levels_follow_the_price() {
    let mut trail = Trail { best: 100, stop: 90, reached_1r: false };
    let u = update_best_and_trailing(&mut trail, PositionSide::Long, 100, 10, 5, 110);
    assert!(u.reached_1r_newly && u.trailing_changed);
    assert_eq!(trail, Trail { best: 110, stop: 105, reached_1r: true });
    let u = update_best_and_trailing(&mut trail, PositionSide::Long, 100, 10, 5, 108);
    assert!(!u.reached_1r_newly && !u.trailing_changed);
    assert_eq!(trail, Trail { best: 110, stop: 105, reached_1r: true });
    let mut short = Trail { best: 100, stop: 110, reached_1r: false };
    let _ = update_best_and_trailing(&mut short, PositionSide::Short, 100, 10, 5, 90);
    assert_eq!(short, Trail { best: 90, stop: 95, reached_1r: true });
}

#[test]
fn positions_run_out_of_time() {
    assert!(time_stop_breached_by_minutes(hms(10, 0, 0), hms(10, 30, 0), 30, false));
    assert!(!time_stop_breached_by_minutes(hms(10, 0, 0), hms(10, 29, 59), 30, false));
    assert!(!time_stop_breached_by_minutes(hms(10, 0, 0), hms(12, 0, 0), 30, true));
}

#[test]
fn states_change_and_are_stamped() {
    let mut s = RunnerState::new();
    assert_eq!(s.transition_execution_state(ExecutionState::Flat, 5), None);
    assert_eq!(s.last_flat_transition_ms, None);
    assert_eq!(s.transition_execution_state(ExecutionState::Open, 6), Some(ExecutionState::Flat));
    assert_eq!(s.transition_execution_state(ExecutionState::Flat, 7), Some(ExecutionState::Open));
    assert_eq!(s.last_flat_transition_ms, Some(7));
    assert_eq!(s.levels_to_save(), None);
    s.current_position = Some(position());
    assert_eq!(s.levels_to_save(), Some((9_905, false, 10_005)));
}

#[test]
fn a_default_counter_lets_nothing_through() {
    let mut gate = GlobalTradeGate::default();
    assert!(!gate.can_enter(1));
    assert_eq!(gate.snapshot(1), (0, 0));
}

#[test]
fn a_person_keeps_a_lock_unless_another_stock_holds_it() {
    let mut lock = PositionLockState::Pending { code: "114800".to_string(), preempted: false };
    assert_eq!(lock.keep_for_manual("122630"), None);
    assert!(matches!(&lock, PositionLockState::ManualHeld(c) if c == "122630"));
    assert_eq!(lock.keep_for_manual("114800").as_deref(), Some("122630"));
}

#[test]
fn brackets_and_targets() {
    let long = bracket_around(PositionSide::Long, 100, 10, 25);
    assert_eq!((long.stop_loss, long.take_profit), (90, 125));
    let short = bracket_around(PositionSide::Short, 100, 10, 25);
    assert_eq!((short.stop_loss, short.take_profit), (110, 75));
    assert_eq!(target_price(PositionSide::Long, 100, 25), 125);
    assert_eq!(target_price(PositionSide::Short, 100, 25), 75);
    assert_eq!(bucket_start(hms(10, 13, 59), 5), hms(10, 10, 0));
    assert_eq!(PositionSide::Long.opening_order(), OrderSide::Buy);
    assert_eq!(PositionSide::Long.closing_order(), OrderSide::Sell);
    assert_eq!(PositionSide::Short.opening_order(), OrderSide::Sell);
}
