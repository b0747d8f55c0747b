//! Picking up after a restart.

use chrono::{Datelike, NaiveDate};
use live_runner::clock::{LocalDateTime, TimeOfDay};
use live_runner::exit::ExitResolutionSource;
use live_runner::position_lock::PositionLockState;
use live_runner::records::{
    build_restart_restored_position, resolve_restart_entry_price, restore_bracket_from_saved,
    Bracket, EntryTerms,
};
use live_runner::restart::{
    free_own_lock, restore_entry_position, restore_exit_position, restore_manual,
    restore_open_position, restored_entry_record, EntryTrouble, RestartFlow, RestartOutcome,
    RestartReply, RestartRequest, SavedFacts, SavedReply,
};
use live_runner::runner_state::{RunnerPhase, RunnerState};
use live_runner::trade_record::{environment_label, trade_figures};
use live_runner::types::{
    ActivePosition, ExitReason, Fill, HoldingReply, PositionSide, TradeResult,
};

fn hms(h: u32, m: u32, s: u32) -> TimeOfDay {
    TimeOfDay { secs: h * 3600 + m * 60 + s, nanos: 0 }
}

fn moment() -> LocalDateTime {
    let day = NaiveDate::from_ymd_opt(2026, 4, 19).unwrap().num_days_from_ce();
    LocalDateTime { day, time: hms(10, 0, 0) }
}

fn reward(risk: i64, rr: f64) -> i64 {
    (risk as f64 * rr) as i64
}

fn sample_saved_position() -> ActivePosition {
    ActivePosition {
        stock_code: "122630".to_string(),
        side: "Long".to_string(),
        entry_price: 100_000,
        stop_loss: 99_000,
        take_profit: 103_000,
        quantity: 10,
        tp_order_no: String::new(),
        tp_krx_orgno: String::new(),
        entry_time: moment(),
        original_sl: 99_000,
        reached_1r: false,
        best_price: 100_000,
        or_high: Some(100_000),
        or_low: Some(99_000),
        or_stage: Some("15m".to_string()),
        or_source: None,
        trigger_price: Some(100_000),
        original_risk: Some(1_000),
        signal_id: Some("sig-1".to_string()),
        entry_mode: Some("marketable_limit".to_string()),
        manual_intervention_required: false,
        execution_state: "entry_pending".to_string(),
        last_exit_order_no: String::new(),
        last_exit_reason: String::new(),
        pending_entry_order_no: "12345".to_string(),
        pending_entry_krx_orgno: "54321".to_string(),
    }
}

#[test]
fn build_restart_restored_position_uses_holdings_quantity() {
    let saved = sample_saved_position();
    let pos = build_restart_restored_position(
        &saved,
        PositionSide::Long,
        3,
        100_500,
        99_500,
        102_500,
        100_500,
        99_500,
        false,
    );
    assert_eq!(pos.quantity, 3);
    assert_eq!(pos.signal_id, "sig-1");
}

#[test]
fn resolve_restart_entry_price_prefers_balance_avg_then_fill_then_submitted() {
    assert_eq!(resolve_restart_entry_price(Some(101_000), Some(100_800), 100_500), 101_000);
    assert_eq!(resolve_restart_entry_price(None, Some(100_800), 100_500), 100_800);
    assert_eq!(resolve_restart_entry_price(None, None, 100_500), 100_500);
    assert_eq!(resolve_restart_entry_price(Some(0), Some(-1), 100_500), 100_500);
}

#[test]
fn restore_bracket_from_saved_uses_original_risk() {
    let saved = sample_saved_position();
    let r = reward(saved.restart_risk(), 2.0);
    let b = restore_bracket_from_saved(&saved, PositionSide::Long, 101_000, r);
    assert_eq!(b.stop_loss, 100_000);
    assert_eq!(b.take_profit, 103_000);
    let b = restore_bracket_from_saved(&saved, PositionSide::Short, 101_000, r);
    assert_eq!(b.stop_loss, 102_000);
    assert_eq!(b.take_profit, 99_000);
}

#[test]
fn restart_risk_is_never_nothing() {
    let mut saved = sample_saved_position();
    saved.original_risk = Some(0);
    assert_eq!(saved.restart_risk(), 1);
    saved.original_risk = None;
    assert_eq!(saved.restart_risk(), 1_000);
    saved.stop_loss = 100_700;
    assert_eq!(saved.restart_risk(), 700);
}

fn terms() -> EntryTerms {
    EntryTerms {
        stock_code: "122630".to_string(),
        side: PositionSide::Short,
        trigger_price: 100_000,
        stop_loss: 101_000,
        take_profit: 98_000,
        or_high: 7,
        or_low: 6,
        stage_name: "15m".to_string(),
        signal_id: "sig".to_string(),
        entry_mode: "limit_passive".to_string(),
    }
}

#[test]
fn a_restart_keeps_the_bracket_of_the_entry() {
    let t = terms();
    let entered = t.entry_bracket(100_100, reward(1_000, 2.0));
    assert_eq!(entered, Bracket { stop_loss: 101_100, take_profit: 98_100 });
    let saved = t.pending_record(100_050, 4, moment(), "no", "org");
    assert_eq!(saved.execution_state, "entry_pending");
    assert_eq!((saved.entry_price, saved.quantity), (100_050, 4));
    let side = saved.position_side();
    let again = restore_bracket_from_saved(&saved, side, 100_100, reward(saved.restart_risk(), 2.0));
    assert_eq!(again, entered);

    let tp = Some(("1".to_string(), "2".to_string(), 98_100));
    let open = t.open_record(100_100, 4, entered, moment(), &tp);
    assert_eq!(open.execution_state, "open");
    assert_eq!((open.tp_order_no.as_str(), open.tp_krx_orgno.as_str()), ("1", "2"));
    let pos = t.opened_position(100_100, 4, entered, moment(), 250, &tp);
    assert_eq!((pos.stop_loss, pos.take_profit, pos.best_price), (101_100, 98_100, 100_100));
    assert_eq!((pos.tp_limit_price, pos.order_to_fill_ms), (Some(98_100), 250));
    assert_eq!(pos.intended_entry_price, 100_000);
}

fn load(saved: &ActivePosition) -> RestartFlow {
    let mut flow = RestartFlow::begin();
    assert_eq!(flow.request(), RestartRequest::LoadSaved);
    flow.step(RestartReply::Saved(SavedReply::Found(SavedFacts::of(saved))));
    flow
}

fn end(flow: &RestartFlow) -> RestartOutcome {
    match flow.request() {
        RestartRequest::Finished(outcome) => outcome,
        other => panic!("not finished: {:?}", other),
    }
}

#[test]
fn without_a_record_orders_are_cancelled_only_if_nothing_is_held() {
    let mut flow = RestartFlow::begin();
    flow.step(RestartReply::Saved(SavedReply::Missing));
    flow.step(RestartReply::Holding(HoldingReply::Nothing));
    assert_eq!(flow.request(), RestartRequest::CancelAllOrders { fallback: false });
    flow.step(RestartReply::Cancelled(true));
    let outcome = end(&flow);
    assert_eq!(outcome, RestartOutcome::OrphansCancelled { fallback: false, complete: true });
    assert_eq!(outcome.reason(""), "safe_orphan_cleanup:orphan_cleanup");
    assert!(!outcome.needs_person());

    let mut flow = RestartFlow::begin();
    flow.step(RestartReply::Saved(SavedReply::NoStore));
    flow.step(RestartReply::Holding(HoldingReply::Held { qty: 5, avg: Some(9) }));
    let outcome = end(&flow);
    assert_eq!(
        outcome,
        RestartOutcome::OrphanHolding { fallback: true, qty: 5, avg: Some(9) }
    );
    assert!(outcome.needs_person());
    let figures = flow.figures(&outcome);
    assert_eq!((figures.filled_price, figures.holdings_after), (Some(9), Some(5)));

    let mut flow = RestartFlow::begin();
    flow.step(RestartReply::Saved(SavedReply::Unreadable));
    flow.step(RestartReply::Holding(HoldingReply::Failed));
    assert_eq!(end(&flow), RestartOutcome::OrphanUnknown { fallback: true });
}

#[test]
fn a_pending_exit_is_settled_or_handed_over() {
    let mut saved = sample_saved_position();
    saved.execution_state = "exit_partial".to_string();
    let mut flow = load(&saved);
    flow.step(RestartReply::Holding(HoldingReply::Nothing));
    assert_eq!(end(&flow), RestartOutcome::ExitFlat);
    assert_eq!(end(&flow).reason("StopLoss"), "restart_recovery:StopLoss");
    let figures = flow.figures(&end(&flow));
    assert_eq!((figures.filled_qty, figures.holdings_after), (Some(10), Some(0)));
    assert_eq!(figures.resolution, ExitResolutionSource::BalanceOnly);

    let mut flow = load(&saved);
    flow.step(RestartReply::Holding(HoldingReply::Held { qty: 4, avg: None }));
    assert_eq!(end(&flow), RestartOutcome::ExitManual { qty: 4, seen: true });

    let mut flow = load(&saved);
    flow.step(RestartReply::Holding(HoldingReply::Failed));
    assert_eq!(end(&flow), RestartOutcome::ExitManual { qty: 10, seen: false });
    assert_eq!(
        end(&flow).reason(""),
        "restart_recovery:exit_pending_balance_lookup_failed"
    );
}

#[test]
fn a_pending_entry_is_cleared_or_handed_over() {
    let saved = sample_saved_position();
    let fill = Fill { price: 100_800, qty: 3 };

    let mut flow = load(&saved);
    assert_eq!(flow.request(), RestartRequest::QueryEntryExecution);
    flow.step(RestartReply::Execution(Some(fill)));
    flow.step(RestartReply::Holding(HoldingReply::Held { qty: 3, avg: None }));
    assert_eq!(
        end(&flow),
        RestartOutcome::EntryManual { qty: 3, entry_price: 100_800, race: false }
    );

    let mut flow = load(&saved);
    flow.step(RestartReply::Execution(None));
    flow.step(RestartReply::Holding(HoldingReply::Nothing));
    assert_eq!(flow.request(), RestartRequest::CancelEntryOrder);
    flow.step(RestartReply::Cancelled(true));
    assert_eq!(flow.request(), RestartRequest::FetchHolding { after_ms: 2_000 });
    let mut race = flow;
    let mut blind = flow;
    flow.step(RestartReply::Holding(HoldingReply::Nothing));
    assert_eq!(end(&flow), RestartOutcome::EntryCleared { cancelled: true });
    race.step(RestartReply::Holding(HoldingReply::Held { qty: 2, avg: Some(101_000) }));
    assert_eq!(
        end(&race),
        RestartOutcome::EntryManual { qty: 2, entry_price: 101_000, race: true }
    );
    blind.step(RestartReply::Holding(HoldingReply::Failed));
    assert_eq!(
        end(&blind),
        RestartOutcome::EntryUnknown { why: EntryTrouble::RecheckUnreadable }
    );

    let mut flow = load(&saved);
    flow.step(RestartReply::Execution(Some(fill)));
    flow.step(RestartReply::Holding(HoldingReply::Nothing));
    flow.step(RestartReply::Cancelled(false));
    assert_eq!(end(&flow), RestartOutcome::EntryUnknown { why: EntryTrouble::CancelFailed });
    let figures = flow.figures(&end(&flow));
    assert_eq!((figures.filled_price, figures.filled_qty), (Some(100_800), Some(3)));
    assert_eq!(figures.holdings_after, Some(0));

    let mut bare = saved.clone();
    bare.pending_entry_order_no = String::new();
    let mut flow = load(&bare);
    flow.step(RestartReply::Holding(HoldingReply::Nothing));
    assert_eq!(end(&flow), RestartOutcome::EntryCleared { cancelled: false });
    assert_eq!(end(&flow).reason(""), "entry_pending_restart_no_holdings");

    let mut flow = load(&bare);
    flow.step(RestartReply::Holding(HoldingReply::Failed));
    assert_eq!(
        end(&flow),
        RestartOutcome::EntryUnknown { why: EntryTrouble::BalanceUnreadable }
    );
}

#[test]
fn an_open_position_is_reopened_unless_it_is_gone() {
    let mut saved = sample_saved_position();
    saved.execution_state = "open".to_string();
    saved.tp_order_no = "77".to_string();
    let mut flow = load(&saved);
    assert_eq!(flow.request(), RestartRequest::CancelTpOrder);
    let mut gone = flow;
    flow.step(RestartReply::Cancelled(true));
    assert_eq!(
        flow.request(),
        RestartRequest::PlaceTp { price: 103_000, qty: 10, after_ms: 3_000 }
    );
    flow.step(RestartReply::TpPlaced(Some(103_000)));
    assert_eq!(end(&flow), RestartOutcome::Reopened { tp: Some(103_000) });
    assert_eq!(flow.figures(&end(&flow)).submitted_price, Some(103_000));

    gone.step(RestartReply::Cancelled(false));
    let mut there = gone;
    let mut unknown = gone;
    unknown.step(RestartReply::Holding(HoldingReply::Failed));
    assert_eq!(end(&unknown), RestartOutcome::OpenUnknown { qty: 10 });
    assert!(end(&unknown).needs_person());
    assert_eq!(end(&unknown).reason(""), "restart_recovery:open_balance_lookup_failed");
    let figures = unknown.figures(&end(&unknown));
    assert_eq!((figures.holdings_before, figures.holdings_after), (Some(10), None));
    gone.step(RestartReply::Holding(HoldingReply::Nothing));
    assert_eq!(end(&gone), RestartOutcome::Phantom);
    there.step(RestartReply::Holding(HoldingReply::Held { qty: 10, avg: None }));
    assert_eq!(
        there.request(),
        RestartRequest::PlaceTp { price: 103_000, qty: 10, after_ms: 0 }
    );

    saved.manual_intervention_required = true;
    saved.tp_order_no = String::new();
    let mut flow = load(&saved);
    flow.step(RestartReply::TpPlaced(None));
    assert_eq!(end(&flow), RestartOutcome::ManualKept { tp: None });
    assert!(end(&flow).needs_person());
}

#[test]
fn positions_are_put_back() {
    let saved = sample_saved_position();
    let mut state = RunnerState::new();
    restore_exit_position(&mut state, &saved, 4);
    assert_eq!(state.phase, RunnerPhase::ManualRestored);
    let pos = state.current_position.as_ref().unwrap();
    assert_eq!((pos.quantity, pos.stop_loss, pos.take_profit), (4, 99_000, 103_000));

    let bracket = Bracket { stop_loss: 1, take_profit: 2 };
    let mut state = RunnerState::new();
    restore_entry_position(&mut state, &saved, 3, 100_800, bracket);
    assert_eq!((state.or_high, state.or_low), (Some(100_000), Some(99_000)));
    let pos = state.current_position.as_ref().unwrap();
    assert_eq!((pos.quantity, pos.entry_price, pos.original_sl), (3, 100_800, 1));
    let record = restored_entry_record(&saved, 3, 100_800, bracket);
    assert_eq!(record.execution_state, "manual_intervention");
    assert_eq!(record.pending_entry_order_no, "");
    assert_eq!(record.or_stage.as_deref(), Some("15m"));

    let mut state = RunnerState::new();
    let stages = vec![("5m".to_string(), 4, 3), ("15m".to_string(), 2, 1)];
    restore_open_position(&mut state, &saved, &None, Some(stages.clone()));
    assert_eq!((state.or_high, state.or_low), (Some(2), Some(1)));
    assert_eq!(state.or_stages, stages);
    let mut other = saved.clone();
    other.or_stage = Some("30m".to_string());
    other.or_high = None;
    restore_open_position(&mut state, &other, &None, Some(stages.clone()));
    assert_eq!((state.or_high, state.or_low), (Some(4), Some(99_000)));
    restore_open_position(&mut state, &other, &None, None);
    assert_eq!((state.or_high, state.or_low), (None, Some(99_000)));
    assert_eq!(state.phase, RunnerPhase::HoldingRestored);

    let mut lock = PositionLockState::Held("114800".to_string());
    restore_manual(&mut state, &mut lock, "122630", "back".to_string());
    assert!(state.manual_intervention_required);
    assert!(matches!(&lock, PositionLockState::ManualHeld(c) if c == "122630"));
    free_own_lock(&mut lock, "114800");
    assert!(matches!(lock, PositionLockState::ManualHeld(_)));
    free_own_lock(&mut lock, "122630");
    assert!(matches!(lock, PositionLockState::Free));
}

#[test]
fn trades_are_stored_with_their_slippage() {
    let mut t = TradeResult {
        side: PositionSide::Long,
        entry_price: 100_050,
        exit_price: 98_900,
        stop_loss: 99_000,
        take_profit: 103_000,
        entry_time: hms(10, 0, 0),
        exit_time: hms(11, 0, 0),
        exit_reason: ExitReason::StopLoss,
        quantity: 0,
        intended_entry_price: 100_000,
        order_to_fill_ms: 0,
    };
    let f = trade_figures(&t, 7);
    assert_eq!((f.quantity, f.entry_slippage, f.exit_slippage), (7, 50, 100));
    t.quantity = 3;
    t.side = PositionSide::Short;
    t.exit_reason = ExitReason::TrailingStop;
    let f = trade_figures(&t, 7);
    assert_eq!((f.quantity, f.exit_slippage), (3, -100));
    t.exit_reason = ExitReason::TakeProfit;
    assert_eq!(trade_figures(&t, 7).exit_slippage, 0);
    assert_eq!(environment_label(true), "real");
    assert_eq!(environment_label(false), "paper");
}
