//! Entering, verifying and closing, reply by reply.

use live_runner::actor::{plan_dispatch, ExecutionCommand};
use live_runner::armed::ArmedWaitOutcome;
use live_runner::clock::TimeOfDay;
use live_runner::close::{
    CloseFlow, CloseOutcome, CloseReply, CloseRequest, CloseStage, SubmitReply,
};
use live_runner::config::LiveRunnerConfig;
use live_runner::entry::{
    can_be_marketable, check_entry_allowed, marketable_limit_price, order_quantity, slippage_parts, BuyableReply,
    EntryFlow, EntryOutcome, EntryRefusal, EntryReply, EntryStage,
};
use live_runner::execution_state::ExecutionState;
use live_runner::exit::{
    ExitResolutionSource, VerifyFlow, VerifyReply, VerifyStage, VerifySummary,
};
use live_runner::journal::{JournalPhase, JournalReason, JournalResolution};
use live_runner::poll::{
    abort_entry, next_stage, AbortReason, EntryResult, PollEffect, PollFlow, PollOutcome,
    PollReply, PollStage,
};
use live_runner::position_lock::PositionLockState;
use live_runner::preflight::GateBits;
use live_runner::runner_state::RunnerState;
use live_runner::signals::LiveSignalState;
use live_runner::take_profit::{
    blended_price, classify_tp_fill, TpFill, TpOutcome, TpPartialFlow, TpReply, TpRequest, TpStage,
};
use live_runner::text::{parse_i64, parse_u64, push_i64, requote, trim, trim_quotes};
use live_runner::types::{
    ExitReason, Fill, HoldingReply, MinuteCandle, OrderSide, PositionSide,
};

fn hms(h: u32, m: u32, s: u32) -> TimeOfDay {
    TimeOfDay { secs: h * 3600 + m * 60 + s, nanos: 0 }
}

fn fill(price: i64, qty: u64) -> Option<Fill> {
    Some(Fill { price, qty })
}

fn held(qty: u64) -> HoldingReply {
    HoldingReply::Held { qty, avg: None }
}

fn tick(elapsed_ms: u64, preempted: bool) -> EntryReply {
    EntryReply::Loop { stopped: false, elapsed_ms, now: hms(10, 0, 0), preempted }
}

fn submitted() -> EntryFlow {
    let mut flow = EntryFlow::begin(10_000, 10_005, 5, 3_000, true);
    let _ = flow.step(EntryReply::Holding(HoldingReply::Nothing));
    let _ = flow.step(EntryReply::Submitted(SubmitReply::Accepted));
    flow
}

#[test]
fn an_entry_is_filled_by_a_notice() {
    let mut flow = submitted();
    assert_eq!(flow.stage, EntryStage::SavePending(0));
    let _ = flow.step(EntryReply::Saved(true));
    let _ = flow.step(tick(0, false));
    assert!(matches!(flow.stage, EntryStage::Notice(_)));
    let _ = flow.step(EntryReply::Notice(fill(10_003, 5)));
    assert_eq!(flow.stage, EntryStage::Done(EntryOutcome::Filled { qty: 5, price: 10_003 }));
}

#[test]
fn an_entry_without_a_balance_sends_no_order() {
    let mut flow = EntryFlow::begin(10_000, 10_005, 5, 3_000, true);
    let _ = flow.step(EntryReply::Holding(HoldingReply::Failed));
    assert_eq!(flow.stage, EntryStage::Done(EntryOutcome::BalanceUnreadable));
}

#[test]
fn an_entry_that_is_refused_ends() {
    for (reply, outcome) in [
        (SubmitReply::NetworkError, EntryOutcome::SubmitFailed),
        (SubmitReply::Rejected, EntryOutcome::Rejected),
    ] {
        let mut flow = EntryFlow::begin(10_000, 10_005, 5, 3_000, true);
        let _ = flow.step(EntryReply::Holding(HoldingReply::Nothing));
        let _ = flow.step(EntryReply::Submitted(reply));
        assert_eq!(flow.stage, EntryStage::Done(outcome));
    }
}

#[test]
fn an_entry_that_cannot_be_saved_is_for_a_person() {
    let mut flow = submitted();
    for _ in 0..3 {
        let _ = flow.step(EntryReply::Saved(false));
    }
    assert_eq!(flow.stage, EntryStage::Done(EntryOutcome::PendingNotSaved));
}

fn waited_out() -> EntryFlow {
    let mut flow = submitted();
    let _ = flow.step(EntryReply::Saved(true));
    let _ = flow.step(tick(3_000, false));
    assert_eq!(flow.stage, EntryStage::TimeoutExecutions);
    let _ = flow.step(EntryReply::Executions(None));
    let _ = flow.step(EntryReply::Holding(HoldingReply::Nothing));
    assert_eq!(flow.stage, EntryStage::Cancel);
    let _ = flow.step(EntryReply::Cancelled(true));
    flow
}

fn settle(mut flow: EntryFlow, holding: HoldingReply) -> EntryStage {
    if flow.stage == EntryStage::CancelAll {
        let _ = flow.step(EntryReply::AllCancelled);
    }
    assert_eq!(flow.stage, EntryStage::CancelExecutions);
    let _ = flow.step(EntryReply::Executions(None));
    assert_eq!(flow.stage, EntryStage::CancelBalance);
    let _ = flow.step(EntryReply::Holding(holding));
    flow.stage
}

#[test]
fn an_entry_that_ran_out_of_time_is_settled_by_the_balance() {
    assert_eq!(
        settle(waited_out(), HoldingReply::Nothing),
        EntryStage::Done(EntryOutcome::Cancelled { preempted: false })
    );
    assert_eq!(
        settle(waited_out(), HoldingReply::Failed),
        EntryStage::Done(EntryOutcome::CancelUnverified)
    );
    assert!(matches!(
        settle(waited_out(), held(2)),
        EntryStage::Done(EntryOutcome::Filled { qty: 2, .. })
    ));
}

#[test]
fn entries_have_their_conditions() {
    assert_eq!(check_entry_allowed(Some((1, 2)), hms(10, 0, 0)), Ok(()));
    assert_eq!(check_entry_allowed(Some((2, 2)), hms(10, 0, 0)), Err(EntryRefusal::DailyLimit));
    assert_eq!(check_entry_allowed(None, hms(15, 19, 29)), Ok(()));
    assert_eq!(check_entry_allowed(None, hms(15, 19, 30)), Err(EntryRefusal::TooLate));
}

#[test]
fn prices_and_quantities_of_entries() {
    assert_eq!(marketable_limit_price(PositionSide::Long, 10_000, 1), 10_005);
    assert_eq!(marketable_limit_price(PositionSide::Long, 100_000, 2), 100_100);
    assert_eq!(marketable_limit_price(PositionSide::Short, 10_000, 0), 9_995);
    assert!(can_be_marketable(PositionSide::Long, i64::MAX - 75, 1));
    assert_eq!(marketable_limit_price(PositionSide::Long, i64::MAX - 75, 1) % 50, 0);
    assert!(!can_be_marketable(PositionSide::Long, i64::MAX - 74, 1));
    assert!(can_be_marketable(PositionSide::Short, i64::MAX, 1));
    assert_eq!(marketable_limit_price(PositionSide::Short, i64::MIN + 3, 3), 1);
    assert!(!can_be_marketable(PositionSide::Short, i64::MIN + 2, 3));
    assert_eq!(slippage_parts(10_030, 10_000), (30, 10_000));
    assert_eq!(slippage_parts(9_970, 10_000), (30, 10_000));
    assert_eq!(order_quantity(BuyableReply::Orderable(10), 5), 9);
    assert_eq!(order_quantity(BuyableReply::Orderable(1), 5), 0);
    assert_eq!(order_quantity(BuyableReply::Cash(1_000), 300), 3);
    assert_eq!(order_quantity(BuyableReply::Cash(-5), 300), 0);
}

#[test]
fn an_exit_is_verified_by_notice_and_balance() {
    let mut v = VerifyFlow::begin(true, 10, 10, 3, 3);
    v.step(VerifyReply::Notice(fill(9_990, 10)));
    assert!(matches!(v.stage, VerifyStage::Balance(0)));
    v.step(VerifyReply::Balance(HoldingReply::Nothing));
    assert_eq!(v.stage, VerifyStage::Done);
    assert_eq!(
        v.summary(),
        VerifySummary {
            filled_qty: 10,
            filled_price: Some(9_990),
            holdings_after: Some(0),
            source: ExitResolutionSource::WsNotice,
        }
    );
}

#[test]
fn an_exit_without_a_price_is_seen_by_the_balance_alone() {
    let mut v = VerifyFlow::begin(false, 10, 10, 1, 2);
    v.step(VerifyReply::Balance(HoldingReply::Failed));
    v.step(VerifyReply::Balance(held(4)));
    assert_eq!(v.stage, VerifyStage::Done);
    let s = v.summary();
    assert_eq!((s.filled_qty, s.filled_price), (6, None));
    assert_eq!((s.holdings_after, s.source), (Some(4), ExitResolutionSource::BalanceOnly));
    assert!(v.verification(Vec::new()).has_remaining());
}

fn summary(price: Option<i64>, after: Option<u64>) -> VerifySummary {
    VerifySummary {
        filled_qty: 10,
        filled_price: price,
        holdings_after: after,
        source: ExitResolutionSource::RestExecution,
    }
}

fn closing() -> CloseFlow {
    let mut flow = CloseFlow::begin(PositionSide::Long, 10, 100, ExitReason::StopLoss, true);
    assert_eq!(flow.request(), CloseRequest::CancelTp);
    let _ = flow.step(CloseReply::TpCancelled);
    let _ = flow.step(CloseReply::Holding(held(10)));
    assert_eq!(flow.request(), CloseRequest::Market { side: OrderSide::Sell, qty: 10 });
    flow
}

#[test]
fn a_position_is_closed() {
    let mut flow = closing();
    let _ = flow.step(CloseReply::Submitted(SubmitReply::Accepted));
    let journal = flow.step(CloseReply::Verified(Some(summary(Some(99), Some(0)))));
    let record = journal.unwrap();
    assert_eq!(record.phase, JournalPhase::ExitFinalFill);
    assert_eq!(record.reason.text(), "close_market:StopLoss");
    assert_eq!(
        flow.request(),
        CloseRequest::Finish(CloseOutcome::Flat {
            exit_price: 99,
            price_unknown: false,
            source: ExitResolutionSource::RestExecution,
        })
    );
}

#[test]
fn an_exit_order_that_fails_leaves_a_position_unprotected() {
    for reply in [SubmitReply::NetworkError, SubmitReply::Rejected] {
        let mut flow = closing();
        let _ = flow.step(CloseReply::Submitted(reply));
        assert_eq!(flow.stage, CloseStage::Done(CloseOutcome::SubmitFailed));
    }
}

#[test]
fn what_is_left_is_sold_once_more() {
    let mut flow = closing();
    let _ = flow.step(CloseReply::Submitted(SubmitReply::Accepted));
    let _ = flow.step(CloseReply::Verified(Some(summary(Some(99), Some(4)))));
    assert_eq!(flow.request(), CloseRequest::Market { side: OrderSide::Sell, qty: 4 });
    let _ = flow.step(CloseReply::Submitted(SubmitReply::Accepted));
    let mut rest = flow;
    let _ = flow.step(CloseReply::Verified(Some(summary(Some(98), Some(0)))));
    assert!(matches!(flow.stage, CloseStage::Done(CloseOutcome::Flat { .. })));
    let _ = rest.step(CloseReply::Verified(Some(summary(None, Some(1)))));
    assert_eq!(rest.stage, CloseStage::Done(CloseOutcome::StillRemaining { held: 1 }));
}

#[test]
fn an_unreadable_balance_ends_closing() {
    let mut flow = closing();
    let _ = flow.step(CloseReply::Submitted(SubmitReply::Accepted));
    let _ = flow.step(CloseReply::Verified(Some(summary(Some(99), None))));
    assert_eq!(flow.stage, CloseStage::Done(CloseOutcome::BalanceUnreadable));
    let mut flow = closing();
    let _ = flow.step(CloseReply::Submitted(SubmitReply::Accepted));
    let _ = flow.step(CloseReply::Verified(None));
    assert_eq!(flow.stage, CloseStage::Done(CloseOutcome::VerifyTimedOut));
}

#[test]
fn take_profit_fills_are_told_apart() {
    assert_eq!(classify_tp_fill(None, 10), TpFill::NotYet);
    assert_eq!(classify_tp_fill(fill(5, 0), 10), TpFill::NotYet);
    assert_eq!(classify_tp_fill(fill(5, 4), 10), TpFill::Partial(Fill { price: 5, qty: 4 }));
    assert_eq!(classify_tp_fill(fill(5, 10), 10), TpFill::Full(Fill { price: 5, qty: 10 }));
    assert_eq!(blended_price(100, 3, 90, 1), 97);
}

#[test]
fn the_rest_of_a_take_profit_is_sold() {
    let begin = || TpPartialFlow::begin(110, Fill { price: 110, qty: 4 }, 10, true);
    let mut flow = begin();
    assert_eq!(flow.request(), TpRequest::CancelRest);
    let _ = flow.step(TpReply::RestCancelled);
    assert_eq!(flow.request(), TpRequest::Market { side: OrderSide::Sell, qty: 6 });
    let mut failed = flow;
    let _ = flow.step(TpReply::Submitted(SubmitReply::Accepted));
    let v = VerifySummary {
        filled_qty: 6,
        filled_price: Some(100),
        holdings_after: Some(0),
        source: ExitResolutionSource::WsNotice,
    };
    let mut left = flow;
    let _ = flow.step(TpReply::Verified(Some(v)));
    assert_eq!(
        flow.stage,
        TpStage::Done(TpOutcome::Flat {
            exit_price: 104,
            price_unknown: false,
            source: ExitResolutionSource::WsNotice,
        })
    );
    let _ = left.step(TpReply::Verified(Some(VerifySummary { holdings_after: Some(2), ..v })));
    assert_eq!(left.stage, TpStage::Done(TpOutcome::StillRemaining { held: 2 }));
    let _ = failed.step(TpReply::Submitted(SubmitReply::NetworkError));
    assert_eq!(failed.stage, TpStage::Done(TpOutcome::SubmitFailed { remaining: 6 }));
}

fn open_gates() -> GateBits {
    GateBits {
        subscription_health_ok: true,
        quote_fault: false,
        spread_ok: true,
        nav_gate_ok: true,
        regime_confirmed: true,
    }
}

fn polling(drift_guard: bool) -> PollFlow {
    let mut flow = PollFlow::begin(drift_guard);
    let _ = flow.step(PollReply::Candles { any: true });
    let _ = flow.step(PollReply::Stages { any: true });
    let effect = flow.step(PollReply::Gates { bits: open_gates(), allowed: true });
    assert!(matches!(effect, PollEffect::Recover));
    let _ = flow.step(PollReply::Search { found: true });
    let _ = flow.step(PollReply::Lock { granted: true });
    let _ = flow.step(PollReply::Halt { halted: false });
    flow
}

fn abort_label(effect: PollEffect) -> &'static str {
    match effect {
        PollEffect::Abort(reason) => reason.label(),
        _ => "",
    }
}

#[test]
fn a_round_ends_where_nothing_is_to_be_done() {
    let done = PollStage::Done(PollOutcome::NoEntry);
    let mut flow = PollFlow::begin(true);
    let _ = flow.step(PollReply::Candles { any: false });
    assert_eq!(flow.stage, done);
    let mut flow = PollFlow::begin(true);
    let _ = flow.step(PollReply::Candles { any: true });
    let _ = flow.step(PollReply::Stages { any: true });
    let closed = GateBits { spread_ok: false, ..open_gates() };
    let effect = flow.step(PollReply::Gates { bits: closed, allowed: true });
    assert!(matches!(effect, PollEffect::Degrade(bits) if bits == closed));
    assert_eq!(flow.stage, done);
}

#[test]
fn a_round_gives_up_for_a_reason() {
    let mut flow = polling(true);
    assert_eq!(flow.stage, PollStage::Drift);
    assert_eq!(abort_label(flow.step(PollReply::Drift { exceeded: None })), "price_fetch_failed");
    let mut flow = polling(true);
    let effect = flow.step(PollReply::Drift { exceeded: Some(true) });
    assert_eq!(abort_label(effect), "drift_exceeded");
    for (outcome, label) in [
        (ArmedWaitOutcome::CutoffReached, "armed_cutoff_reached"),
        (ArmedWaitOutcome::PreflightFailed("why"), "why"),
        (ArmedWaitOutcome::DriftExceeded, "armed_drift_exceeded"),
        (ArmedWaitOutcome::Stopped, "armed_stopped"),
        (ArmedWaitOutcome::Aborted("other"), "other"),
        (ArmedWaitOutcome::AlreadyArmed, "armed_already_armed"),
    ] {
        let mut flow = polling(false);
        assert_eq!(flow.stage, PollStage::Watch);
        assert_eq!(abort_label(flow.step(PollReply::Watch(outcome))), label);
        assert_eq!(flow.stage, PollStage::Done(PollOutcome::NoEntry));
    }
}

fn entering() -> PollFlow {
    let mut flow = polling(false);
    let _ = flow.step(PollReply::Watch(ArmedWaitOutcome::Ready));
    assert_eq!(flow.stage, PollStage::Enter);
    flow
}

#[test]
fn a_round_tries_at_most_twice() {
    let mut flow = entering();
    let _ = flow.step(PollReply::Entry(EntryResult::Entered));
    assert_eq!(flow.stage, PollStage::Done(PollOutcome::Entered));
    let mut flow = entering();
    let _ = flow.step(PollReply::Entry(EntryResult::Manual));
    assert_eq!(flow.stage, PollStage::Done(PollOutcome::Manual));
    let mut flow = entering();
    let effect = flow.step(PollReply::Entry(EntryResult::Preempted));
    assert_eq!(abort_label(effect), "preempted");
    let mut flow = entering();
    let effect = flow.step(PollReply::Entry(EntryResult::Failed));
    assert_eq!(abort_label(effect), "fill_timeout_or_cutoff");

    let mut flow = entering();
    let _ = flow.step(PollReply::Entry(EntryResult::Retryable { delay_ms: 20 }));
    assert_eq!(flow.stage, PollStage::EnterAgain { delay_ms: 500 });
    let mut other = flow;
    let effect = flow.step(PollReply::Entry(EntryResult::Retryable { delay_ms: 20 }));
    assert_eq!(abort_label(effect), "api_error_retry_failed");
    let effect = other.step(PollReply::Entry(EntryResult::Preempted));
    assert_eq!(abort_label(effect), "preempted_on_retry");
}

#[test]
fn giving_up_frees_the_lock_and_keeps_good_signals() {
    let mut state = RunnerState::new();
    state.execution_state = ExecutionState::SignalArmed;
    let mut search = LiveSignalState::default();
    let mut lock = PositionLockState::Pending { code: "122630".to_string(), preempted: true };
    let when = hms(10, 0, 0);
    abort_entry(&mut state, &mut search, &mut lock, "122630", when, &AbortReason::Preempted, 7);
    assert_eq!(search.search_after, None);
    assert!(matches!(lock, PositionLockState::Free));
    assert_eq!(state.execution_state, ExecutionState::Flat);
    assert_eq!(state.last_flat_transition_ms, Some(7));
    let spent = AbortReason::FillTimeoutOrCutoff;
    abort_entry(&mut state, &mut search, &mut lock, "122630", when, &spent, 9);
    assert_eq!(search.search_after, Some(when));
    assert_eq!(state.last_flat_transition_ms, Some(7));
}

#[test]
fn stages_are_searched_once_they_have_candles() {
    let cfg = LiveRunnerConfig::default();
    let candle = |m: u32| MinuteCandle {
        day: 1,
        time: hms(9, m, 0),
        open: 1,
        high: 1,
        low: 1,
        close: 1,
        volume: 1,
    };
    let candles = vec![candle(15), candle(20), candle(25)];
    let stages = vec![("5m", 2, 1, hms(9, 5, 0)), ("15m", 2, 1, hms(9, 15, 0))];
    assert_eq!(next_stage(&cfg, &stages, &candles, None, 0), Some(1));
    assert_eq!(next_stage(&cfg, &stages, &candles, None, 2), None);
    assert_eq!(next_stage(&cfg, &stages, &candles, Some(hms(9, 15, 0)), 0), None);
}

#[test]
fn events_are_dispatched() {
    let commands = vec![
        ExecutionCommand::Noted,
        ExecutionCommand::ReconcileBalance,
        ExecutionCommand::EnterManualIntervention { reason: "first".to_string() },
        ExecutionCommand::EnterManualIntervention { reason: "second".to_string() },
    ];
    let plan = plan_dispatch(ExecutionState::Open, ExecutionState::ExitPending, &commands);
    assert_eq!(plan.change_to, Some(ExecutionState::ExitPending));
    assert_eq!(plan.manual_reason.as_deref(), Some("first"));
    assert!(plan.reconcile);
    let plan = plan_dispatch(ExecutionState::Open, ExecutionState::Open, &Vec::new());
    assert_eq!(plan.change_to, None);
    assert!(plan.manual_reason.is_none() && !plan.reconcile);
}

#[test]
fn journal_words() {
    assert_eq!(JournalPhase::EntryFinalFill.label(), "entry_final_fill");
    assert_eq!(JournalReason::RetryFinalFill(ExitReason::TimeStop).text(), "retry_final_fill:TimeStop");
    assert_eq!(JournalResolution::Unknown.label(), "unknown");
    assert_eq!(ExitReason::EndOfDay.label(), "EndOfDay");
    assert_eq!(PositionSide::Short.label(), "Short");
}

#[test]
fn small_texts_are_read_and_written() {
    assert_eq!(parse_u64("+007"), Some(7));
    assert_eq!(parse_u64(""), None);
    assert_eq!(parse_u64("18446744073709551616"), None);
    assert_eq!(parse_i64("-9223372036854775808"), Some(i64::MIN));
    assert_eq!(parse_i64("9223372036854775808"), None);
    let mut out = String::new();
    push_i64(&mut out, i64::MIN);
    assert_eq!(out, "-9223372036854775808");
    assert_eq!(trim("\u{3000} a\tb \n"), "a\tb");
    assert_eq!(trim_quotes("\"\"x\""), "x");
    assert_eq!(requote("['a']"), "[\"a\"]");
}
