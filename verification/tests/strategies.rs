//! The strategies over candles of the past.

use chrono::{Datelike, NaiveDate};
use live_runner::clock::TimeOfDay;
use live_runner::double::DoubleBits;
use live_runner::orb_fvg::{
    mid_risk, mid_signal, place_from, ExitCause, ExitTerms, OrbFvgConfig, OrbFvgStrategy, PastDay,
    PastReply, PastStage,
};
use live_runner::orb_vwap_pullback::{OrbVwapPullbackConfig, OrbVwapPullbackEngine};
use live_runner::signals::{
    entry_edge, gap_risk, position_execution_id, signal_execution_id, BestSignal, DetectedSignal,
    FairValueGap, GapQuality, LiveSignalState, SignalEngine, SignalEngineConfig,
};
use live_runner::types::{ExitReason, MinuteCandle, Position, PositionSide, TradeResult};

fn hms(h: u32, m: u32, s: u32) -> TimeOfDay {
    TimeOfDay { secs: h * 3600 + m * 60 + s, nanos: 0 }
}

fn bits(x: f64) -> DoubleBits {
    DoubleBits { bits: x.to_bits() }
}

fn mc(hour: u32, min: u32, open: i64, high: i64, low: i64, close: i64) -> MinuteCandle {
    let total_min = hour * 60 + min;
    MinuteCandle {
        day: NaiveDate::from_ymd_opt(2026, 4, 8).unwrap().num_days_from_ce(),
        time: hms(total_min / 60, total_min % 60, 0),
        open,
        high,
        low,
        close,
        volume: 1000,
    }
}

fn build_or_candles(or_high: i64, or_low: i64) -> Vec<MinuteCandle> {
    let mut candles = Vec::new();
    for m in 0..15 {
        let (o, h, l, c) = if m == 0 {
            (or_low, or_high, or_low, (or_high + or_low) / 2)
        } else {
            let mid = (or_high + or_low) / 2;
            (mid, mid + 10, mid - 10, mid)
        };
        candles.push(mc(9, m, o, h, l, c));
    }
    candles
}

fn quality(b: &MinuteCandle) -> GapQuality {
    GapQuality {
        gap_size_pct: bits(0.0),
        b_body_ratio: bits(0.0),
        or_breakout_pct: bits(0.0),
        b_volume: b.volume,
        b_close: b.close,
        a_range: 0,
        b_time: b.time,
    }
}

/// The first gap to the upside that broke the range and that price came back to.
fn detect(candles: &[MinuteCandle], or_high: i64, expiry: usize) -> Option<DetectedSignal> {
    for i in 2..candles.len() {
        let (a, b, c) = (&candles[i - 2], &candles[i - 1], &candles[i]);
        if a.high < c.low && b.close > or_high {
            for j in i + 1..candles.len().min(i + 1 + expiry) {
                if candles[j].low <= c.low {
                    return Some(DetectedSignal {
                        side: PositionSide::Long,
                        signal_time: candles[j].time,
                        gap: FairValueGap {
                            top: c.low,
                            bottom: a.high,
                            mid_price: (c.low + a.high) / 2,
                            stop_loss: a.low,
                        },
                        quality: quality(b),
                        retrace_candle_idx: j,
                    });
                }
            }
        }
    }
    None
}

fn pnl(t: &TradeResult) -> f64 {
    let gain = match t.side {
        PositionSide::Long => t.exit_price - t.entry_price,
        PositionSide::Short => t.entry_price - t.exit_price,
    };
    gain as f64 / t.entry_price as f64 * 100.0
}

fn run_day(strategy: &OrbFvgStrategy, candles: &Vec<MinuteCandle>) -> Vec<TradeResult> {
    let mut results = Vec::new();
    let cfg = &strategy.config;
    let Some(material) = strategy.run_day(candles) else {
        return results;
    };
    let fives = &material.candles_5m;
    let mut day = PastDay::begin(cfg, fives.len());
    let mut total = 0.0;
    while day.stage == PastStage::Search {
        let from = day.search_from;
        let reply = match detect(&fives[from..], material.or_high, cfg.fvg_expiry_candles) {
            None => PastReply::Nothing,
            Some(d) => {
                let risk = mid_risk(&d) as f64;
                let (terms, end, ended_at) = strategy.scan_and_trade(
                    fives,
                    from,
                    &d,
                    (risk * f64::from_bits(cfg.rr_ratio.bits)) as i64,
                    (risk * f64::from_bits(cfg.breakeven_r.bits)) as i64,
                    (risk * f64::from_bits(cfg.trailing_r.bits)) as i64,
                );
                match end {
                    None => PastReply::Nothing,
                    Some(e) => {
                        results.push(terms.trade(&e, ExitReason::StopLoss));
                        PastReply::Found { side: terms.side, ended_at }
                    }
                }
            }
        };
        day.step(reply);
        if let PastStage::Account { .. } = day.stage {
            let won = pnl(results.last().unwrap());
            total += won;
            day.step(PastReply::Result { pnl: bits(won), total: bits(total) });
        }
    }
    results
}

#[test]
fn test_run_day_long_tp() {
    let strategy = OrbFvgStrategy::new(bits(2.0));
    let mut candles = build_or_candles(10000, 9800);
    candles.extend((0..5).map(|m| mc(9, 15 + m, 9950, 10100, 9940, 10050)));
    candles.extend((0..5).map(|m| mc(9, 20 + m, 10050, 10060, 10040, 10055)));
    candles.extend((0..5).map(|m| mc(9, 25 + m, 10055, 10200, 10050, 10180)));
    candles.extend((0..5).map(|m| mc(9, 30 + m, 10180, 10200, 10080, 10150)));
    candles.extend((0..5).map(|m| mc(9, 35 + m, 10150, 10160, 10065, 10100)));
    for i in 0..20 {
        candles.extend((0..5).map(|m| {
            let base = 10100 + (i * 30) as i64;
            mc(9, 40 + i * 5 + m, base, base + 50, base - 10, base + 40)
        }));
    }

    let results = run_day(&strategy, &candles);
    assert!(!results.is_empty());
    assert_eq!(results[0].side, PositionSide::Long);
    assert!(pnl(&results[0]) > 0.0);
    assert_eq!(results[0].exit_reason, ExitReason::TakeProfit);
    assert_eq!((results[0].entry_price, results[0].exit_price), (10_070, 10_130));
}

#[test]
fn test_run_day_no_breakout() {
    let strategy = OrbFvgStrategy::new(bits(2.0));
    let mut candles = build_or_candles(10000, 9800);
    for i in 0..60 {
        candles.push(mc(9, 15 + i, 9900, 9950, 9850, 9920));
    }
    let results = run_day(&strategy, &candles);
    assert!(results.is_empty());
}

fn position(side: PositionSide, stop_loss: i64, take_profit: i64) -> Position {
    Position {
        side,
        entry_price: 10000,
        stop_loss,
        take_profit,
        entry_time: hms(9, 30, 0),
        quantity: 1,
        tp_order_no: None,
        tp_krx_orgno: None,
        tp_limit_price: None,
        reached_1r: false,
        best_price: 10000,
        original_sl: 0,
        sl_triggered_tick: false,
        intended_entry_price: 0,
        order_to_fill_ms: 0,
        signal_id: String::new(),
    }
}

#[test]
fn test_check_exit_sl() {
    let strategy = OrbFvgStrategy::new(bits(2.0));
    let pos = position(PositionSide::Long, 9900, 10200);
    assert_eq!(strategy.check_exit(&pos, 10100), None);
    assert_eq!(strategy.check_exit(&pos, 9900), Some(ExitReason::StopLoss));
    assert_eq!(strategy.check_exit(&pos, 10200), Some(ExitReason::TakeProfit));
}

#[test]
fn test_check_exit_short() {
    let strategy = OrbFvgStrategy::new(bits(2.0));
    let pos = position(PositionSide::Short, 10100, 9800);
    assert_eq!(strategy.check_exit(&pos, 9900), None);
    assert_eq!(strategy.check_exit(&pos, 10100), Some(ExitReason::StopLoss));
    assert_eq!(strategy.check_exit(&pos, 9800), Some(ExitReason::TakeProfit));
}

#[test]
fn usual_settings_of_the_gap_strategy() {
    let cfg = OrbFvgConfig::default();
    assert_eq!(cfg.rr_ratio, bits(2.0));
    assert_eq!((cfg.or_start, cfg.or_end), (hms(9, 0, 0), hms(9, 15, 0)));
    assert_eq!((cfg.entry_cutoff, cfg.force_exit), (hms(15, 20, 0), hms(15, 25, 0)));
    assert_eq!(cfg.time_stop_candles, 6);
    assert_eq!(cfg.trailing_r, bits(0.5));
    assert_eq!(cfg.breakeven_r, bits(1.0));
    assert_eq!(cfg.atr_sl_multiplier, bits(1.5));
    assert_eq!(cfg.fvg_expiry_candles, 4);
    assert_eq!(cfg.min_or_breakout_pct, bits(0.001));
    assert_eq!(cfg.min_first_pnl_for_second, bits(0.5));
    assert_eq!(cfg.max_daily_loss_pct, bits(-1.5));
    assert_eq!(cfg.max_daily_trades, 5);
    assert!(cfg.long_only);
    assert_eq!(OrbFvgStrategy::new(bits(3.0)).config.rr_ratio, bits(3.0));
}

fn terms() -> ExitTerms {
    ExitTerms {
        side: PositionSide::Long,
        entry_price: 100,
        stop_loss: 90,
        take_profit: 130,
        entry_time: hms(10, 0, 0),
        breakeven: 10,
        trailing: 5,
        time_stop_candles: 3,
        force_exit: hms(15, 25, 0),
    }
}

fn ended(candles: Vec<MinuteCandle>) -> Option<(ExitCause, i64)> {
    terms().simulate_exit(&candles, 0).map(|e| (e.cause, e.price))
}

#[test]
fn positions_of_the_past_end_in_order_of_precedence() {
    assert_eq!(ended(vec![]), None);
    assert_eq!(
        ended(vec![mc(10, 5, 85, 200, 80, 100)]),
        Some((ExitCause::GapStop { reached_1r: false }, 85))
    );
    assert_eq!(ended(vec![mc(10, 5, 100, 130, 80, 100)]), Some((ExitCause::TakeProfit, 130)));
    assert_eq!(
        ended(vec![mc(10, 5, 100, 105, 90, 100)]),
        Some((ExitCause::Stopped { stop_loss: 90, reached_1r: false }, 90))
    );
    assert_eq!(
        ended(vec![mc(10, 5, 100, 120, 116, 118), mc(10, 10, 118, 119, 115, 116)]),
        Some((ExitCause::Stopped { stop_loss: 115, reached_1r: true }, 115))
    );
    let flat = |m| mc(10, m, 100, 101, 99, 100);
    assert_eq!(
        ended(vec![flat(5), flat(10), mc(10, 15, 100, 101, 99, 98), flat(20)]),
        Some((ExitCause::TimeStop, 98))
    );
    assert_eq!(ended(vec![mc(15, 25, 100, 101, 99, 97)]), Some((ExitCause::EndOfDay, 97)));
    assert_eq!(ended(vec![flat(5), flat(10)]), Some((ExitCause::EndOfDay, 100)));
}

#[test]
fn exits_are_found_again_by_time() {
    let candles = vec![mc(10, 0, 1, 1, 1, 1), mc(10, 5, 1, 1, 1, 1), mc(10, 10, 1, 1, 1, 1)];
    assert_eq!(place_from(&candles, 0, hms(10, 5, 0)), 1);
    assert_eq!(place_from(&candles, 1, hms(10, 6, 0)), 1);
    assert_eq!(place_from(&candles, 1, hms(11, 0, 0)), 2);
}

#[test]
fn every_search_asks_for_a_break() {
    let strategy = OrbFvgStrategy::new(bits(2.0));
    let cfg = strategy.search_config(10_000, 9_800);
    assert_eq!((cfg.or_high, cfg.or_low), (10_000, 9_800));
    assert!(cfg.require_or_breakout && cfg.long_only && cfg.confirmed_side.is_none());
    assert_eq!(cfg.strategy_id, "orb_fvg");
    assert_eq!(cfg.stage_name, "legacy_single_stage");
    assert_eq!(cfg.fvg_expiry_candles, strategy.config.fvg_expiry_candles);
}

#[test]
fn days_of_the_past_keep_their_limits() {
    let mut day = PastDay::begin(&OrbFvgConfig::default(), 10);
    day.step(PastReply::Found { side: PositionSide::Long, ended_at: 3 });
    day.step(PastReply::Result { pnl: bits(0.5), total: bits(0.5) });
    assert_eq!((day.search_from, day.confirmed_side), (3, Some(PositionSide::Long)));
    day.step(PastReply::Found { side: PositionSide::Short, ended_at: 0 });
    assert_eq!((day.search_from, day.trades, day.stage), (4, 1, PastStage::Search));
    day.step(PastReply::Found { side: PositionSide::Long, ended_at: 1 });
    day.step(PastReply::Result { pnl: bits(0.5), total: bits(1.0) });
    assert_eq!((day.trades, day.stage), (2, PastStage::Done));

    let mut day = PastDay::begin(&OrbFvgConfig::default(), 10);
    day.step(PastReply::Found { side: PositionSide::Long, ended_at: 3 });
    day.step(PastReply::Result { pnl: bits(-0.1), total: bits(-0.1) });
    assert_eq!(day.stage, PastStage::Done);

    let mut day = PastDay::begin(&OrbFvgConfig::default(), 10);
    day.step(PastReply::Found { side: PositionSide::Long, ended_at: 3 });
    day.step(PastReply::Result { pnl: bits(0.4), total: bits(0.4) });
    assert_eq!((day.trades, day.stage), (1, PastStage::Done));

    let mut cfg = OrbFvgConfig::default();
    cfg.max_daily_trades = 1;
    let mut day = PastDay::begin(&cfg, 10);
    day.step(PastReply::Found { side: PositionSide::Long, ended_at: 3 });
    day.step(PastReply::Result { pnl: bits(1.0), total: bits(1.0) });
    assert_eq!((day.trades, day.stage), (1, PastStage::Done));
    assert_eq!(PastDay::begin(&OrbFvgConfig::default(), 0).stage, PastStage::Done);
}

#[test]
fn live_evaluation_needs_an_opening_range() {
    let strategy = OrbFvgStrategy::new(bits(2.0));
    assert!(strategy.evaluate_candles(&vec![mc(9, 20, 1, 2, 0, 1)]).is_none());
    let mut candles = build_or_candles(10000, 9800);
    candles.push(mc(9, 16, 1, 2, 0, 1));
    let m = strategy.evaluate_candles(&candles).unwrap();
    assert_eq!((m.or_high, m.or_low), (10000, 9800));
    assert_eq!(m.candles_5m.len(), 1);
    assert_eq!(m.candles_5m[0].time, hms(9, 15, 0));
}

fn detected(side: PositionSide) -> DetectedSignal {
    DetectedSignal {
        side,
        signal_time: hms(9, 35, 0),
        gap: FairValueGap { top: 10_080, bottom: 10_060, mid_price: 10_070, stop_loss: 10_040 },
        quality: quality(&mc(9, 25, 0, 0, 0, 10_180)),
        retrace_candle_idx: 4,
    }
}

#[test]
fn signals_enter_at_the_near_edge() {
    let d = detected(PositionSide::Long);
    assert_eq!(entry_edge(d.side, &d.gap), 10_080);
    assert_eq!(gap_risk(10_080, &d.gap), 40);
    let sig = BestSignal::of_detected(&d, "15m", 10_000, 9_800, 80);
    assert_eq!((sig.entry_price, sig.stop_loss, sig.take_profit), (10_080, 10_040, 10_160));
    assert_eq!(sig.signal_id("122630"), "122630:15m:093500:092500:Long:10080");
    let short = BestSignal::of_detected(&detected(PositionSide::Short), "5m", 1, 0, 80);
    assert_eq!((short.entry_price, short.take_profit), (10_060, 9_980));

    let m = mid_signal(&d, 60);
    assert_eq!((m.entry_price, m.take_profit, m.signal_time), (10_070, 10_130, hms(9, 35, 0)));
}

#[test]
fn executions_have_names() {
    assert_eq!(signal_execution_id("122630", hms(9, 5, 7), -3, 12), "122630:090507:-3:12");
    let pos = position(PositionSide::Long, 9900, 10200);
    assert_eq!(position_execution_id("114800", &pos), "114800:093000:10000:1");
}

#[test]
fn the_search_never_moves_back() {
    let mut s = LiveSignalState::default();
    s.give_up(hms(10, 0, 0));
    s.give_up(hms(9, 0, 0));
    assert_eq!(s.search_after, Some(hms(10, 0, 0)));
    s.closed_at(hms(11, 0, 0));
    s.give_up(hms(11, 30, 0));
    assert_eq!(s.search_after, Some(hms(11, 30, 0)));
}

#[test]
fn stub_returns_none_for_now() {
    let engine = OrbVwapPullbackEngine::default();
    let cfg = SignalEngineConfig {
        strategy_id: "orb_vwap_pullback".into(),
        stage_name: "15m".into(),
        or_high: 10_000,
        or_low: 9_900,
        fvg_expiry_candles: 6,
        entry_cutoff: hms(10, 30, 0),
        require_or_breakout: true,
        min_or_breakout_pct: bits(0.001),
        long_only: true,
        confirmed_side: None,
    };
    assert!(engine.detect_next(&Vec::new(), &cfg).is_none());
}

#[test]
fn default_config_matches_redesign_plan() {
    let cfg = OrbVwapPullbackConfig::default();
    assert_eq!(cfg.or_start, hms(9, 0, 0));
    assert_eq!(cfg.or_end, hms(9, 15, 0));
    assert_eq!(cfg.entry_cutoff, hms(10, 30, 0));
    assert_eq!(cfg.force_exit, hms(15, 15, 0));
    assert_eq!(cfg.direction_confirm_candles, 2);
    assert_eq!(cfg.max_daily_trades, 1);
    assert_eq!(cfg.partial_exit_ratio, bits(0.5));
}
