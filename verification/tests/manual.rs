//! Handing over to a person, and looking after a position.

use live_runner::clock::TimeOfDay;
use live_runner::close::CloseOutcome;
use live_runner::config::LiveRunnerConfig;
use live_runner::day::{last_winner, DayEnd, DayReply, DayRules, DayRun, DayStage};
use live_runner::double::DoubleBits;
use live_runner::execution_state::ExecutionState;
use live_runner::exit::ExitResolutionSource;
use live_runner::manage::{manage_start, ManageAction, ManageStart};
use live_runner::position_lock::{release_lock_if_self_held, PositionLockState};
use live_runner::runner_state::{
    classify_main_loop_stop, enter_manual_intervention_state, should_skip_auto_close_for_manual,
    ExitRefusal, MainLoopStopAction, RunnerPhase, RunnerState,
};
use live_runner::take_profit::TpOutcome;
use live_runner::types::{ExitReason, Position, PositionSide};

fn hms(h: u32, m: u32, s: u32) -> TimeOfDay {
    TimeOfDay { secs: h * 3600 + m * 60 + s, nanos: 0 }
}

fn bits(x: f64) -> DoubleBits {
    DoubleBits { bits: x.to_bits() }
}

fn make_test_position() -> Position {
    Position {
        side: PositionSide::Long,
        entry_price: 100_000,
        stop_loss: 99_000,
        take_profit: 102_500,
        entry_time: hms(10, 0, 0),
        quantity: 10,
        tp_order_no: None,
        tp_krx_orgno: None,
        tp_limit_price: None,
        reached_1r: false,
        best_price: 100_000,
        original_sl: 99_000,
        sl_triggered_tick: false,
        intended_entry_price: 100_000,
        order_to_fill_ms: 0,
        signal_id: "test-signal".to_string(),
    }
}

fn make_state(manual: bool, with_position: bool) -> RunnerState {
    RunnerState {
        current_position: if with_position { Some(make_test_position()) } else { None },
        manual_intervention_required: manual,
        execution_state: ExecutionState::derive_from_legacy(with_position, false, manual, false),
        ..RunnerState::new()
    }
}

#[test]
fn skips_auto_close_when_manual_intervention_required() {
    assert!(should_skip_auto_close_for_manual(&make_state(true, false)));
}

#[test]
fn does_not_skip_auto_close_when_manual_intervention_false() {
    assert!(!should_skip_auto_close_for_manual(&make_state(false, false)));
}

#[test]
fn main_loop_with_manual_and_position_takes_skip_branch() {
    assert_eq!(
        classify_main_loop_stop(&make_state(true, true)),
        MainLoopStopAction::SkipForManual { had_position: true }
    );
}

#[test]
fn main_loop_with_manual_no_position_takes_skip_branch() {
    assert_eq!(
        classify_main_loop_stop(&make_state(true, false)),
        MainLoopStopAction::SkipForManual { had_position: false }
    );
}

#[test]
fn main_loop_without_manual_with_position_takes_close_branch() {
    assert_eq!(
        classify_main_loop_stop(&make_state(false, true)),
        MainLoopStopAction::CloseAndExit { has_position: true }
    );
}

#[test]
fn main_loop_without_manual_no_position_takes_close_branch() {
    assert_eq!(
        classify_main_loop_stop(&make_state(false, false)),
        MainLoopStopAction::CloseAndExit { has_position: false }
    );
}

fn manual_holder(lock: &PositionLockState) -> Option<&str> {
    match lock {
        PositionLockState::ManualHeld(c) => Some(c),
        _ => None,
    }
}

#[test]
fn trigger_manual_intervention_keeps_lock_as_held_self() {
    let mut state = RunnerState::new();
    let mut lock = PositionLockState::Free;
    enter_manual_intervention_state(&mut state, &mut lock, "122630", "test reason".to_string());
    assert_eq!(manual_holder(&lock), Some("122630"));
}

#[test]
fn trigger_manual_intervention_sets_state_flags() {
    let mut state = RunnerState::new();
    let mut lock = PositionLockState::Free;
    let reason = "state flags test".to_string();
    let entry = enter_manual_intervention_state(&mut state, &mut lock, "122630", reason);
    assert!(state.manual_intervention_required);
    assert!(state.degraded);
    assert_eq!(state.phase.label(), "수동 개입 필요");
    assert_eq!(state.degraded_reason.as_deref(), Some("state flags test"));
    assert_eq!(state.execution_state, ExecutionState::ManualIntervention);
    assert_eq!(entry.prev, ExecutionState::Flat);
}

#[test]
fn manage_position_skips_close_when_manual_intervention_active() {
    let mut state = RunnerState::new();
    state.manual_intervention_required = true;
    let start = manage_start(&state, true);
    assert!(matches!(start, ManageStart::SkipForManual { levels: None }));
    assert!(state.current_position.is_none());
}

#[test]
fn manage_position_with_filled_position_skips_close_when_manual_active() {
    let mut state = RunnerState::new();
    state.current_position = Some(make_test_position());
    state.manual_intervention_required = true;
    let start = manage_start(&state, true);
    assert!(matches!(
        start,
        ManageStart::SkipForManual { levels: Some((99_000, false, 100_000)) }
    ));
    assert!(state.current_position.is_some());
}

#[test]
fn manage_position_with_filled_position_attempts_close_when_manual_inactive() {
    let mut state = RunnerState::new();
    state.current_position = Some(make_test_position());
    state.manual_intervention_required = false;
    assert!(matches!(manage_start(&state, true), ManageStart::CloseNow));
}

#[test]
fn manage_position_skips_when_exit_pending_active() {
    let mut state = RunnerState::new();
    state.current_position = Some(make_test_position());
    state.exit_pending = true;
    assert!(matches!(manage_start(&state, false), ManageStart::Skip));
    assert!(state.current_position.is_some());
    assert!(state.exit_pending);
}

#[test]
fn trigger_manual_intervention_overwrites_prior_lock_with_self_held() {
    let mut state = RunnerState::new();
    let mut lock = PositionLockState::Pending { code: "114800".to_string(), preempted: false };
    enter_manual_intervention_state(&mut state, &mut lock, "122630", "override test".to_string());
    assert_eq!(manual_holder(&lock), Some("122630"));
}

#[test]
fn enter_manual_state_preserves_held_other_lock() {
    let mut state = RunnerState::new();
    let mut lock = PositionLockState::Held("114800".to_string());
    let reason = "test conflict".to_string();
    let entry = enter_manual_intervention_state(&mut state, &mut lock, "122630", reason);
    assert!(matches!(&lock, PositionLockState::Held(c) if c == "114800"));
    assert_eq!(entry.conflict.as_deref(), Some("114800"));
    assert!(state.manual_intervention_required);
    assert!(state.degraded);
}

#[test]
fn enter_manual_state_takes_lock_from_free() {
    let mut state = RunnerState::new();
    let mut lock = PositionLockState::Free;
    enter_manual_intervention_state(&mut state, &mut lock, "122630", "free".to_string());
    assert_eq!(manual_holder(&lock), Some("122630"));
}

#[test]
fn enter_manual_state_preserves_manual_held_other_lock() {
    let mut state = RunnerState::new();
    let mut lock = PositionLockState::ManualHeld("114800".to_string());
    enter_manual_intervention_state(&mut state, &mut lock, "122630", "collision".to_string());
    assert_eq!(manual_holder(&lock), Some("114800"));
    assert!(state.manual_intervention_required);
}

#[test]
fn release_lock_helper_only_releases_self_holder() {
    let mut lock = PositionLockState::Held("122630".to_string());
    release_lock_if_self_held(&mut lock, "122630");
    assert!(matches!(lock, PositionLockState::Free));

    let mut lock = PositionLockState::Held("114800".to_string());
    release_lock_if_self_held(&mut lock, "122630");
    assert!(matches!(&lock, PositionLockState::Held(c) if c == "114800"));

    let mut lock = PositionLockState::ManualHeld("114800".to_string());
    release_lock_if_self_held(&mut lock, "122630");
    assert_eq!(manual_holder(&lock), Some("114800"));

    let mut lock = PositionLockState::ManualHeld("122630".to_string());
    release_lock_if_self_held(&mut lock, "122630");
    assert_eq!(manual_holder(&lock), Some("122630"));

    let mut lock = PositionLockState::Pending { code: "122630".to_string(), preempted: false };
    release_lock_if_self_held(&mut lock, "122630");
    assert!(matches!(lock, PositionLockState::Free));

    let mut lock = PositionLockState::Pending { code: "114800".to_string(), preempted: false };
    release_lock_if_self_held(&mut lock, "122630");
    assert!(matches!(lock, PositionLockState::Pending { .. }));

    let mut lock = PositionLockState::Free;
    release_lock_if_self_held(&mut lock, "122630");
    assert!(matches!(lock, PositionLockState::Free));
}

#[test]
fn enter_manual_state_self_held_keeps_self_as_holder() {
    let mut state = RunnerState::new();
    let mut lock = PositionLockState::Held("122630".to_string());
    enter_manual_intervention_state(&mut state, &mut lock, "122630", "self held".to_string());
    assert_eq!(manual_holder(&lock), Some("122630"));
    assert!(state.manual_intervention_required);
}

#[test]
fn enter_manual_state_takes_lock_from_pending_other() {
    let mut state = RunnerState::new();
    let mut lock = PositionLockState::Pending { code: "114800".to_string(), preempted: false };
    enter_manual_intervention_state(&mut state, &mut lock, "122630", "pending".to_string());
    assert_eq!(manual_holder(&lock), Some("122630"));
}

#[test]
fn entries_take_turns() {
    let mut lock = PositionLockState::default();
    assert!(lock.request_entry("122630"));
    assert!(!lock.request_entry("122630"));
    assert!(!lock.is_preempted());
    assert!(!lock.request_entry("114800"));
    assert!(lock.is_preempted());
    lock.confirm_held("122630");
    assert!(!lock.request_entry("114800"));
    release_lock_if_self_held(&mut lock, "122630");
    assert!(lock.request_entry("114800"));
}

#[test]
fn a_fill_does_not_take_a_kept_lock() {
    let mut lock = PositionLockState::Free;
    assert!(lock.request_entry("114800"));
    assert_eq!(lock.keep_for_manual("122630"), None);
    assert_eq!(lock.confirm_held("114800"), Some("122630".to_string()));
    release_lock_if_self_held(&mut lock, "114800");
    assert!(matches!(&lock, PositionLockState::ManualHeld(c) if c == "122630"));
    assert_eq!(lock.confirm_held("122630"), None);
    assert!(matches!(&lock, PositionLockState::ManualHeld(c) if c == "122630"));

    let mut lock = PositionLockState::Held("122630".to_string());
    assert_eq!(lock.confirm_held("114800"), None);
    assert!(matches!(&lock, PositionLockState::Held(c) if c == "114800"));

    let mut lock = PositionLockState::Pending { code: "114800".to_string(), preempted: true };
    assert_eq!(lock.confirm_held("114800"), None);
    assert!(matches!(&lock, PositionLockState::Held(c) if c == "114800"));
}

#[test]
fn ended_sales_make_trades() {
    let pos = make_test_position();
    let source = ExitResolutionSource::BalanceOnly;
    let flat = CloseOutcome::Flat { exit_price: 99_500, price_unknown: true, source };
    let (trade, meta) = flat.trade_of(&pos, hms(11, 0, 0), ExitReason::StopLoss).unwrap();
    assert_eq!((trade.exit_price, trade.take_profit, trade.quantity), (99_500, 102_500, 10));
    assert!(meta.fill_price_unknown);
    assert!(CloseOutcome::SubmitFailed.trade_of(&pos, hms(11, 0, 0), ExitReason::StopLoss).is_none());

    let sold = TpOutcome::Flat { exit_price: 102_300, price_unknown: false, source };
    let (trade, meta) = sold.trade_of(&pos, 102_450, hms(11, 0, 0)).unwrap();
    assert_eq!((trade.exit_price, trade.take_profit), (102_300, 102_450));
    assert_eq!(trade.exit_reason, ExitReason::TakeProfit);
    assert!(!meta.fill_price_unknown);
    assert!(TpOutcome::VerifyTimedOut.trade_of(&pos, 102_450, hms(11, 0, 0)).is_none());
}

#[test]
fn an_exit_begins_once() {
    let mut state = make_state(false, true);
    let flow = state.begin_exit(ExitReason::StopLoss).unwrap();
    assert_eq!((flow.quantity, flow.entry_price), (10, 100_000));
    assert!(state.exit_pending);
    assert!(matches!(state.begin_exit(ExitReason::StopLoss), Err(ExitRefusal::AlreadyPending)));
    state.drop_exit_and_tp();
    assert!(!state.exit_pending && state.current_position.is_some());
    state.settle_flat();
    assert!(matches!(state.begin_exit(ExitReason::StopLoss), Err(ExitRefusal::NoPosition)));
    assert_eq!(state.phase, RunnerPhase::Searching);
}

#[test]
fn only_an_empty_balance_takes_the_position_away() {
    let source = ExitResolutionSource::BalanceOnly;
    let flat = CloseOutcome::Flat { exit_price: 99_500, price_unknown: false, source };
    let mut state = make_state(false, true);
    let _ = state.begin_exit(ExitReason::StopLoss);
    assert!(!state.finish_exit(flat));
    assert!(state.current_position.is_none() && !state.exit_pending);

    let mut state = make_state(false, true);
    let _ = state.begin_exit(ExitReason::StopLoss);
    assert!(state.finish_exit(CloseOutcome::BalanceUnreadable));
    assert!(state.current_position.is_some() && state.exit_pending);
    assert!(!state.finish_exit(CloseOutcome::VerifyTimedOut));
    assert!(state.current_position.is_some() && state.exit_pending);
    assert!(state.finish_exit(CloseOutcome::SubmitFailed));
    assert!(state.current_position.is_some() && !state.exit_pending);
}

#[test]
fn a_person_sees_a_stuck_take_profit() {
    let mut state = make_state(false, true);
    assert!(!state.finish_tp(TpOutcome::VerifyTimedOut));
    assert!(state.finish_tp(TpOutcome::SubmitFailed { remaining: 3 }));
    assert!(state.current_position.is_some());
    let source = ExitResolutionSource::BalanceOnly;
    assert!(!state.finish_tp(TpOutcome::Flat { exit_price: 101_000, price_unknown: false, source }));
    assert!(state.current_position.is_none());
    assert_eq!(state.phase, RunnerPhase::Searching);
}

#[test]
fn an_entered_position_shows_its_range() {
    let pos = make_state(false, true).current_position.unwrap();
    let mut state = make_state(false, false);
    state.open_position(pos, 101_000, 99_000);
    assert_eq!((state.or_high, state.or_low), (Some(101_000), Some(99_000)));
    assert_eq!(state.phase, RunnerPhase::Holding);
    assert_eq!(state.current_position.unwrap().entry_price, 100_000);
}

#[test]
fn degradation_comes_and_goes() {
    let mut state = make_state(false, true);
    state.transition_to_degraded("quote_invalid".to_string(), 5);
    assert_eq!(state.execution_state, ExecutionState::Degraded);
    state.clear_degraded_if_healthy(6);
    assert_eq!(state.execution_state, ExecutionState::Open);
    assert!(!state.degraded && state.degraded_reason.is_none());

    let mut state = make_state(false, false);
    state.transition_to_degraded("quote_invalid".to_string(), 5);
    state.clear_degraded_if_healthy(6);
    assert_eq!(state.execution_state, ExecutionState::Flat);
    assert_eq!(state.last_flat_transition_ms, Some(6));

    let mut state = make_state(true, true);
    state.transition_to_degraded("quote_invalid".to_string(), 5);
    assert_eq!(state.execution_state, ExecutionState::ManualIntervention);
    assert!(state.degraded_reason.is_none());
}

#[test]
fn the_first_allowed_range_is_shown() {
    let cfg = LiveRunnerConfig::default();
    let mut state = RunnerState::new();
    let stages = vec![("5m", 9, 8, hms(9, 5, 0)), ("15m", 7, 6, hms(9, 15, 0))];
    state.update_or_state_from_stages(&cfg, &stages);
    assert_eq!((state.or_high, state.or_low), (Some(7), Some(6)));
    assert_eq!(state.or_stages.len(), 2);
    assert_eq!(state.or_stages[0], ("5m".to_string(), 9, 8));
    state.update_or_state_from_stages(&cfg, &Vec::new());
    assert_eq!((state.or_high, state.or_low), (None, None));
    assert!(state.or_stages.is_empty());
}

#[test]
fn phases_have_their_words() {
    assert_eq!(RunnerPhase::Initializing.label(), "초기화");
    assert_eq!(RunnerPhase::Searching.label(), "신호 탐색");
    assert_eq!(RunnerPhase::Finished.label(), "종료");
}

#[test]
fn a_position_is_managed_by_price_and_time() {
    let now = hms(10, 10, 0);
    let mut pos = make_test_position();
    let (action, update) = pos.manage(100_500, 1_000, 500, now, 30);
    assert_eq!(action, ManageAction::Nothing);
    assert_eq!(pos.best_price, 100_500);
    assert!(!update.reached_1r_newly);

    let (action, update) = pos.manage(101_200, 1_000, 500, now, 30);
    assert_eq!(action, ManageAction::Nothing);
    assert!(update.reached_1r_newly);
    assert_eq!(pos.stop_loss, 100_700);

    let (action, _) = pos.manage(100_700, 1_000, 500, now, 30);
    let stopped = ManageAction::CloseStopped {
        stop_loss: 100_700,
        original_sl: 99_000,
        entry_price: 100_000,
        reached_1r: true,
    };
    assert_eq!(action, stopped);
    assert_eq!(action.close_reason(ExitReason::TrailingStop), Some(ExitReason::TrailingStop));

    let mut pos = make_test_position();
    let (action, _) = pos.manage(100_100, 1_000, 500, hms(10, 30, 0), 30);
    assert_eq!(action, ManageAction::CloseTimeStop);
    let (action, _) = pos.manage(100_100, 1_000, 500, hms(10, 29, 59), 30);
    assert_eq!(action, ManageAction::Nothing);

    let mut pos = make_test_position();
    let (action, _) = pos.manage(102_500, 1_000, 500, now, 30);
    assert_eq!(action, ManageAction::CloseTakeProfit);
    pos.tp_order_no = Some("1".to_string());
    let (action, _) = pos.manage(102_500, 1_000, 500, now, 30);
    assert_eq!(action, ManageAction::QueryTakeProfit { expected_qty: 10, tp_price: 102_500 });
}

#[test]
fn ticks_wake_the_runner_once() {
    let mut pos = make_test_position();
    assert!(!pos.on_tick(1_000, 500, 99_001));
    assert!(pos.on_tick(1_000, 500, 99_000));
    assert!(!pos.on_tick(1_000, 500, 98_000));
    assert!(pos.sl_triggered_tick);
}

fn rules(max_trades: usize) -> DayRules {
    DayRules {
        or_start: hms(9, 0, 0),
        entry_cutoff: hms(15, 20, 0),
        force_exit: hms(15, 25, 0),
        max_trades,
        max_loss: bits(-1.5),
        real_mode: true,
    }
}

fn around(stopped: bool, manual: bool, has_position: bool, halted: bool, now: TimeOfDay) -> DayReply {
    DayReply::Around { stopped, manual, has_position, halted, now }
}

fn looking(max_trades: usize) -> DayRun {
    let mut day = DayRun::begin(rules(max_trades));
    day.step(DayReply::Ack);
    day.step(DayReply::Opened { stopped: false, now: hms(9, 0, 0), has_position: false });
    day.step(DayReply::RangeOver { stopped: false });
    day.step(DayReply::Today { trades: 0, winner: None });
    assert_eq!(day.stage, DayStage::Look);
    day
}

#[test]
fn a_leftover_position_is_closed_at_the_open_only() {
    let mut day = DayRun::begin(rules(5));
    day.step(DayReply::Ack);
    let mut late = day;
    day.step(DayReply::Opened { stopped: false, now: hms(9, 5, 0), has_position: true });
    assert_eq!(day.stage, DayStage::CloseLeftover);
    day.step(DayReply::LeftoverClosed { ok: false });
    assert_eq!(day.stage, DayStage::Done(DayEnd::LeftoverManual));
    late.step(DayReply::Opened { stopped: false, now: hms(9, 5, 1), has_position: true });
    assert_eq!(late.stage, DayStage::AwaitRange);
}

#[test]
fn a_day_goes_its_way() {
    let ten = hms(10, 0, 0);
    let mut day = looking(2);
    day.step(around(false, false, false, false, ten));
    assert_eq!(day.stage, DayStage::Search);
    day.step(DayReply::Ack);
    day.step(DayReply::Ack);
    day.step(around(false, false, true, false, ten));
    assert_eq!(day.stage, DayStage::Manage);
    day.step(DayReply::Closed { side: PositionSide::Long, pnl: bits(0.4), total: bits(0.4) });
    assert_eq!(day.stage, DayStage::PauseManaging);
    assert_eq!(day.confirmed_side, Some(PositionSide::Long));
    day.step(DayReply::Ack);
    day.step(around(false, false, true, false, ten));
    day.step(DayReply::Closed { side: PositionSide::Long, pnl: bits(-0.1), total: bits(0.3) });
    assert_eq!(day.stage, DayStage::Done(DayEnd::Over));
    assert_eq!(day.trades, 2);
}

#[test]
fn a_bad_day_ends() {
    let mut day = looking(5);
    day.step(around(false, false, true, false, hms(10, 0, 0)));
    day.step(DayReply::Closed { side: PositionSide::Long, pnl: bits(-1.5), total: bits(-1.5) });
    assert_eq!(day.stage, DayStage::Done(DayEnd::Over));
}

#[test]
fn a_stopped_day_closes_unless_a_person_looks() {
    let ten = hms(10, 0, 0);
    let mut day = looking(5);
    day.step(around(true, true, true, false, ten));
    assert_eq!(day.stage, DayStage::SaveAndEnd);
    let mut day = looking(5);
    day.step(around(true, false, true, false, ten));
    assert_eq!(day.stage, DayStage::CloseAndEnd);
    let mut day = looking(5);
    day.step(around(false, false, false, false, hms(15, 20, 0)));
    assert_eq!(day.stage, DayStage::Done(DayEnd::Over));
    let mut day = looking(5);
    day.step(around(false, false, true, false, hms(15, 25, 0)));
    assert_eq!(day.stage, DayStage::CloseAndEnd);
    let mut day = looking(5);
    day.step(around(false, false, false, true, ten));
    assert_eq!(day.stage, DayStage::PauseSearching);
}

#[test]
fn the_last_winner_sets_the_side() {
    assert_eq!(last_winner("Long", bits(0.1)), Some(PositionSide::Long));
    assert_eq!(last_winner("Short", bits(0.1)), Some(PositionSide::Short));
    assert_eq!(last_winner("Long", bits(0.0)), None);
    assert_eq!(last_winner("else", bits(0.1)), None);
}

#[test]
fn the_end_of_a_day_keeps_what_a_person_has_to_see() {
    let mut state = make_state(false, false);
    state.end_day();
    assert_eq!(state.phase, RunnerPhase::Finished);
    let mut state = make_state(true, false);
    state.phase = RunnerPhase::Manual;
    state.end_day();
    assert_eq!(state.phase, RunnerPhase::Manual);
    let mut state = make_state(false, true);
    state.discard_position(9);
    assert!(state.current_position.is_none());
    assert_eq!(state.execution_state, ExecutionState::Flat);
    assert_eq!(state.last_flat_transition_ms, Some(9));
}
