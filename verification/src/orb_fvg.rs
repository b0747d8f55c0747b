//! Trading gaps on the break of the opening range, over candles of the past.

use crate::candles::{
    aggregate, bars_of, candles_to_search, or_range, range_in, search_window, total_volume,
};
use crate::clock::TimeOfDay;
use crate::double::DoubleBits;
use crate::records::{distance, price_distance};
use crate::signals::{target_at, target_price, DetectedSignal, SignalEngineConfig};
use crate::trailing::{
    is_sl_hit, is_tp_hit, level_fits, seen, stop_hit, target_hit, update_best_and_trailing, Trail,
};
use crate::types::{ExitReason, MinuteCandle, Position, PositionSide, TradeResult};
use vstd::prelude::*;

verus! {

/// What the strategy goes by.  Fractions are multiples of what an entry risks, unless said
/// otherwise.
#[derive(Debug, Clone, Copy, PartialEq, Eq, Structural)]
pub struct OrbFvgConfig {
    /// How far away the target lies.
    pub rr_ratio: DoubleBits,
    /// The opening range begins.
    pub or_start: TimeOfDay,
    /// The opening range is over, and the search begins.
    pub or_end: TimeOfDay,
    /// From this time on nothing is entered.
    pub entry_cutoff: TimeOfDay,
    /// At this time every position is closed.
    pub force_exit: TimeOfDay,
    /// A position that has not earned enough after this many candles is closed.
    pub time_stop_candles: usize,
    /// The distance at which the stop follows the best price.
    pub trailing_r: DoubleBits,
    /// What a position has to earn for its stop to move to the entry.
    pub breakeven_r: DoubleBits,
    /// The least distance of the stop, in average true ranges.
    pub atr_sl_multiplier: DoubleBits,
    /// A gap is of use for this many candles.
    pub fvg_expiry_candles: usize,
    /// How strong a break of the opening range has to be, as a fraction of its edge.
    pub min_or_breakout_pct: DoubleBits,
    /// What a first trade has to earn for a second one, in percent.
    pub min_first_pnl_for_second: DoubleBits,
    /// A day's result as bad as this ends the day, in percent.
    pub max_daily_loss_pct: DoubleBits,
    pub max_daily_trades: usize,
    /// Only gaps to the upside are traded.
    pub long_only: bool,
}

/// 2.
pub const TWO_BITS: u64 = 0x4000_0000_0000_0000;

/// 1.
pub const ONE_BITS: u64 = 0x3ff0_0000_0000_0000;

/// One half.
pub const HALF_BITS: u64 = 0x3fe0_0000_0000_0000;

/// One and a half.
pub const THREE_HALVES_BITS: u64 = 0x3ff8_0000_0000_0000;

/// Minus one and a half.
pub const MINUS_THREE_HALVES_BITS: u64 = 0xbff8_0000_0000_0000;

/// One thousandth.
pub const THOUSANDTH_BITS: u64 = 0x3f50_624d_d2f1_a9fc;

impl OrbFvgConfig {
    /// The usual settings.
    pub open spec fn usual() -> OrbFvgConfig {
        OrbFvgConfig {
            rr_ratio: DoubleBits { bits: TWO_BITS },
            or_start: TimeOfDay { secs: 32_400, nanos: 0 },
            or_end: TimeOfDay { secs: 33_300, nanos: 0 },
            entry_cutoff: TimeOfDay { secs: 55_200, nanos: 0 },
            force_exit: TimeOfDay { secs: 55_500, nanos: 0 },
            time_stop_candles: 6,
            trailing_r: DoubleBits { bits: HALF_BITS },
            breakeven_r: DoubleBits { bits: ONE_BITS },
            atr_sl_multiplier: DoubleBits { bits: THREE_HALVES_BITS },
            fvg_expiry_candles: 4,
            min_or_breakout_pct: DoubleBits { bits: THOUSANDTH_BITS },
            min_first_pnl_for_second: DoubleBits { bits: HALF_BITS },
            max_daily_loss_pct: DoubleBits { bits: MINUS_THREE_HALVES_BITS },
            max_daily_trades: 5,
            long_only: true,
        }
    }
}

impl Default for OrbFvgConfig {
    fn default() -> (r: Self)
        ensures
            r == OrbFvgConfig::usual(),
    {
        OrbFvgConfig {
            rr_ratio: DoubleBits { bits: TWO_BITS },
            or_start: TimeOfDay::from_hms_opt(9, 0, 0).unwrap(),
            or_end: TimeOfDay::from_hms_opt(9, 15, 0).unwrap(),
            entry_cutoff: TimeOfDay::from_hms_opt(15, 20, 0).unwrap(),
            force_exit: TimeOfDay::from_hms_opt(15, 25, 0).unwrap(),
            time_stop_candles: 6,
            trailing_r: DoubleBits { bits: HALF_BITS },
            breakeven_r: DoubleBits { bits: ONE_BITS },
            atr_sl_multiplier: DoubleBits { bits: THREE_HALVES_BITS },
            fvg_expiry_candles: 4,
            min_or_breakout_pct: DoubleBits { bits: THOUSANDTH_BITS },
            min_first_pnl_for_second: DoubleBits { bits: HALF_BITS },
            max_daily_loss_pct: DoubleBits { bits: MINUS_THREE_HALVES_BITS },
            max_daily_trades: 5,
            long_only: true,
        }
    }
}

/// The strategy.
#[derive(Debug, Clone, Copy, PartialEq, Eq, Structural)]
pub struct OrbFvgStrategy {
    pub config: OrbFvgConfig,
}

/// An entry of the past: where it was made, and the distances that its stop goes by.
#[derive(Debug, Clone, Copy, PartialEq, Eq, Structural)]
pub struct ExitTerms {
    pub side: PositionSide,
    pub entry_price: i64,
    pub stop_loss: i64,
    pub take_profit: i64,
    pub entry_time: TimeOfDay,
    /// What the position has to earn for its stop to move to the entry.
    pub breakeven: i64,
    /// The distance at which the stop follows the best price.
    pub trailing: i64,
    pub time_stop_candles: usize,
    pub force_exit: TimeOfDay,
}

/// What ended a position.
#[derive(Debug, Clone, Copy, PartialEq, Eq, Structural)]
pub enum ExitCause {
    /// A candle opened beyond the stop.
    GapStop { reached_1r: bool },
    TakeProfit,
    /// The stop was hit.
    Stopped { stop_loss: i64, reached_1r: bool },
    TimeStop,
    EndOfDay,
}

impl ExitCause {
    /// The reason under which the trade goes.  `stop_reason` is the name of the stop that was hit.
    pub open spec fn reason_with(self, stop_reason: ExitReason) -> ExitReason {
        match self {
            ExitCause::GapStop { .. } | ExitCause::Stopped { .. } => stop_reason,
            ExitCause::TakeProfit => ExitReason::TakeProfit,
            ExitCause::TimeStop => ExitReason::TimeStop,
            ExitCause::EndOfDay => ExitReason::EndOfDay,
        }
    }

    /// The reason under which the trade goes.
    pub fn reason(self, stop_reason: ExitReason) -> (r: ExitReason)
        ensures
            r == self.reason_with(stop_reason),
    {
        match self {
            ExitCause::GapStop { .. } | ExitCause::Stopped { .. } => stop_reason,
            ExitCause::TakeProfit => ExitReason::TakeProfit,
            ExitCause::TimeStop => ExitReason::TimeStop,
            ExitCause::EndOfDay => ExitReason::EndOfDay,
        }
    }
}

/// How a position of the past ended.
#[derive(Debug, Clone, Copy, PartialEq, Eq, Structural)]
pub struct SimulatedExit {
    pub cause: ExitCause,
    pub price: i64,
    pub time: TimeOfDay,
}

/// The price of a candle that suits a position best.
pub open spec fn favourable(side: PositionSide, c: MinuteCandle) -> i64 {
    match side {
        PositionSide::Long => c.high,
        PositionSide::Short => c.low,
    }
}

/// The price of a candle that suits a position least.
pub open spec fn adverse(side: PositionSide, c: MinuteCandle) -> i64 {
    match side {
        PositionSide::Long => c.low,
        PositionSide::Short => c.high,
    }
}

impl ExitTerms {
    /// The levels at the entry.
    pub open spec fn at_entry(self) -> Trail {
        Trail { best: self.entry_price, stop: self.stop_loss, reached_1r: false }
    }

    /// The levels after a candle.
    pub open spec fn after_candle(self, t: Trail, c: MinuteCandle) -> Trail {
        t.after(
            self.side,
            self.entry_price,
            self.breakeven,
            self.trailing,
            favourable(self.side, c),
        )
    }

    /// What one candle does to a position, if it ends it: it opened beyond the stop; it reached
    /// the target; it reached the stop, which has followed its best price; too much time has
    /// passed; the day ends.
    pub open spec fn ended_by(self, t: Trail, c: MinuteCandle, nth: int) -> Option<SimulatedExit> {
        let u = self.after_candle(t, c);
        if stop_hit(self.side, t.stop, c.open) {
            Some(
                SimulatedExit {
                    cause: ExitCause::GapStop { reached_1r: t.reached_1r },
                    price: c.open,
                    time: c.time,
                },
            )
        } else if target_hit(self.side, self.take_profit, favourable(self.side, c)) {
            Some(
                SimulatedExit {
                    cause: ExitCause::TakeProfit,
                    price: self.take_profit,
                    time: c.time,
                },
            )
        } else if stop_hit(self.side, u.stop, adverse(self.side, c)) {
            Some(
                SimulatedExit {
                    cause: ExitCause::Stopped { stop_loss: u.stop, reached_1r: u.reached_1r },
                    price: u.stop,
                    time: c.time,
                },
            )
        } else if !u.reached_1r && nth >= self.time_stop_candles {
            Some(SimulatedExit { cause: ExitCause::TimeStop, price: c.close, time: c.time })
        } else if !c.time.earlier(self.force_exit) {
            Some(SimulatedExit { cause: ExitCause::EndOfDay, price: c.close, time: c.time })
        } else {
            None
        }
    }

    /// The end of a position that was not ended by the first `i` candles.
    pub open spec fn exit_from(self, t: Trail, s: Seq<MinuteCandle>, i: int) -> Option<SimulatedExit>
        decreases s.len() - i,
    {
        if i >= s.len() {
            if s.len() == 0 {
                None
            } else {
                Some(
                    SimulatedExit {
                        cause: ExitCause::EndOfDay,
                        price: s.last().close,
                        time: s.last().time,
                    },
                )
            }
        } else {
            match self.ended_by(t, s[i], i + 1) {
                Some(end) => Some(end),
                None => self.exit_from(self.after_candle(t, s[i]), s, i + 1),
            }
        }
    }

    /// The differences between the prices fit into 64 bits, as far as they are needed.
    pub open spec fn computable_from(self, t: Trail, s: Seq<MinuteCandle>, i: int) -> bool
        decreases s.len() - i,
    {
        i >= s.len() || stop_hit(self.side, t.stop, s[i].open) || target_hit(
            self.side,
            self.take_profit,
            favourable(self.side, s[i]),
        ) || (t.computable(
            self.side,
            self.entry_price,
            self.trailing,
            favourable(self.side, s[i]),
        ) && (self.ended_by(t, s[i], i + 1) is Some || self.computable_from(
            self.after_candle(t, s[i]),
            s,
            i + 1,
        )))
    }

    /// How a position ended: the first candle that ends it, else the last one.  The candles from
    /// `from` on came after the entry.
    pub fn simulate_exit(&self, candles: &Vec<MinuteCandle>, from: usize) -> (r: Option<
        SimulatedExit,
    >)
        requires
            from <= candles@.len(),
            self.computable_from(self.at_entry(), candles@.skip(from as int), 0),
        ensures
            r == self.exit_from(self.at_entry(), candles@.skip(from as int), 0),
    {
        let ghost s = candles@.skip(from as int);
        let mut trail = Trail { best: self.entry_price, stop: self.stop_loss, reached_1r: false };
        let mut i: usize = 0;
        while i < candles.len() - from
            invariant
                from <= candles@.len(),
                s == candles@.skip(from as int),
                i <= s.len(),
                self.computable_from(trail, s, i as int),
                self.exit_from(self.at_entry(), s, 0) == self.exit_from(trail, s, i as int),
            decreases s.len() - i,
        {
            let c: MinuteCandle = candles[from + i];
            assert(c == s[i as int]);
            if is_sl_hit(self.side, trail.stop, c.open) {
                return Some(
                    SimulatedExit {
                        cause: ExitCause::GapStop { reached_1r: trail.reached_1r },
                        price: c.open,
                        time: c.time,
                    },
                );
            }
            let (best, worst): (i64, i64) = match self.side {
                PositionSide::Long => (c.high, c.low),
                PositionSide::Short => (c.low, c.high),
            };
            if is_tp_hit(self.side, self.take_profit, best) {
                return Some(
                    SimulatedExit {
                        cause: ExitCause::TakeProfit,
                        price: self.take_profit,
                        time: c.time,
                    },
                );
            }
            let _ = update_best_and_trailing(
                &mut trail,
                self.side,
                self.entry_price,
                self.breakeven,
                self.trailing,
                best,
            );
            if is_sl_hit(self.side, trail.stop, worst) {
                return Some(
                    SimulatedExit {
                        cause: ExitCause::Stopped {
                            stop_loss: trail.stop,
                            reached_1r: trail.reached_1r,
                        },
                        price: trail.stop,
                        time: c.time,
                    },
                );
            }
            if !trail.reached_1r && i + 1 >= self.time_stop_candles {
                return Some(
                    SimulatedExit { cause: ExitCause::TimeStop, price: c.close, time: c.time },
                );
            }
            if !c.time.is_before(self.force_exit) {
                return Some(
                    SimulatedExit { cause: ExitCause::EndOfDay, price: c.close, time: c.time },
                );
            }
            i = i + 1;
        }
        let n: usize = candles.len();
        if n == from {
            None
        } else {
            assert(s.last() == candles@[n - 1]);
            let last: MinuteCandle = candles[n - 1];
            Some(SimulatedExit { cause: ExitCause::EndOfDay, price: last.close, time: last.time })
        }
    }

    /// The trade that an end makes.
    pub open spec fn trade_of(self, end: SimulatedExit, stop_reason: ExitReason) -> TradeResult {
        TradeResult {
            side: self.side,
            entry_price: self.entry_price,
            exit_price: end.price,
            stop_loss: self.stop_loss,
            take_profit: self.take_profit,
            entry_time: self.entry_time,
            exit_time: end.time,
            exit_reason: end.cause.reason_with(stop_reason),
            quantity: 0,
            intended_entry_price: self.entry_price,
            order_to_fill_ms: 0,
        }
    }

    /// The trade that an end makes.
    pub fn trade(&self, end: &SimulatedExit, stop_reason: ExitReason) -> (r: TradeResult)
        ensures
            r == self.trade_of(*end, stop_reason),
    {
        TradeResult {
            side: self.side,
            entry_price: self.entry_price,
            exit_price: end.price,
            stop_loss: self.stop_loss,
            take_profit: self.take_profit,
            entry_time: self.entry_time,
            exit_time: end.time,
            exit_reason: end.cause.reason(stop_reason),
            quantity: 0,
            intended_entry_price: self.entry_price,
            order_to_fill_ms: 0,
        }
    }
}

/// A position of the past ends, unless no candle came after its entry, and it ends at a candle
/// that came after it.
pub proof fn every_position_ends(terms: ExitTerms, t: Trail, s: Seq<MinuteCandle>, i: int)
    requires
        0 <= i <= s.len(),
    ensures
        terms.exit_from(t, s, i) is None <==> s.len() == 0,
        terms.exit_from(t, s, i) matches Some(end) ==> exists|k: int|
            0 <= k < s.len() && (#[trigger] s[k]).time == end.time,
    decreases s.len() - i,
{
    if i < s.len() {
        if terms.ended_by(t, s[i], i + 1) is None {
            every_position_ends(terms, terms.after_candle(t, s[i]), s, i + 1);
        } else {
            assert(s[i].time == terms.ended_by(t, s[i], i + 1)->0.time);
        }
    } else if s.len() > 0 {
        assert(s[s.len() - 1].time == s.last().time);
    }
}

/// The signal of a gap that is entered in its middle.
#[derive(Debug, Clone, Copy, PartialEq, Eq, Structural)]
pub struct Signal {
    pub side: PositionSide,
    pub entry_price: i64,
    pub stop_loss: i64,
    pub take_profit: i64,
    pub signal_time: TimeOfDay,
}

/// What an entry in the middle of a gap risks.
pub fn mid_risk(detected: &DetectedSignal) -> (r: i64)
    requires
        distance(detected.gap.mid_price as int, detected.gap.stop_loss as int) <= i64::MAX,
    ensures
        r == distance(detected.gap.mid_price as int, detected.gap.stop_loss as int),
{
    price_distance(detected.gap.mid_price, detected.gap.stop_loss)
}

/// The signal of a gap that is entered in its middle.  `reward` is the target's distance that
/// belongs to the risk.
pub fn mid_signal(detected: &DetectedSignal, reward: i64) -> (r: Signal)
    requires
        i64::MIN <= target_at(detected.side, detected.gap.mid_price as int, reward as int)
            <= i64::MAX,
    ensures
        r.side == detected.side,
        r.entry_price == detected.gap.mid_price,
        r.stop_loss == detected.gap.stop_loss,
        r.take_profit == target_at(
            detected.side,
            detected.gap.mid_price as int,
            reward as int,
        ),
        r.signal_time == detected.signal_time,
{
    Signal {
        side: detected.side,
        entry_price: detected.gap.mid_price,
        stop_loss: detected.gap.stop_loss,
        take_profit: target_price(detected.side, detected.gap.mid_price, reward),
        signal_time: detected.signal_time,
    }
}

/// The candles that come no earlier than a time: the place of the first, or how many there are.
pub open spec fn first_from(s: Seq<MinuteCandle>, t: TimeOfDay) -> int
    decreases s.len(),
{
    if s.len() == 0 {
        0
    } else if !s[0].time.earlier(t) {
        0
    } else {
        1 + first_from(s.drop_first(), t)
    }
}

/// The place of the first candle that comes no earlier than a time, or how many there are.
pub fn place_from(candles: &Vec<MinuteCandle>, from: usize, t: TimeOfDay) -> (r: usize)
    requires
        from <= candles@.len(),
    ensures
        r == first_from(candles@.skip(from as int), t),
        r <= candles@.len() - from,
{
    let mut i: usize = 0;
    while i < candles.len() - from && candles[from + i].time.is_before(t)
        invariant
            from <= candles@.len(),
            i <= candles@.len() - from,
            first_from(candles@.skip(from as int), t) == i + first_from(
                candles@.skip(from + i),
                t,
            ),
        decreases candles.len() - from - i,
    {
        proof {
            assert(candles@.skip(from + i)[0] == candles@[from + i]);
            assert(candles@.skip(from + i).drop_first() =~= candles@.skip(from + i + 1));
        }
        i = i + 1;
    }
    proof {
        if i < candles@.len() - from {
            assert(candles@.skip(from + i)[0] == candles@[from + i]);
        }
    }
    i
}

/// What a day of the past is searched in: its opening range and its five-minute candles after it.
#[derive(Debug, Clone)]
pub struct DayMaterial {
    pub or_high: i64,
    pub or_low: i64,
    pub candles_5m: Vec<MinuteCandle>,
}

impl OrbFvgStrategy {
    /// The strategy with a target of so many times the risk.
    pub fn new(rr_ratio: DoubleBits) -> (r: Self)
        ensures
            r.config == (OrbFvgConfig { rr_ratio, ..OrbFvgConfig::usual() }),
    {
        let base: OrbFvgConfig = OrbFvgConfig::default();
        OrbFvgStrategy { config: OrbFvgConfig { rr_ratio, ..base } }
    }

    /// The candles come every five minutes already.
    pub open spec fn in_fives(s: Seq<MinuteCandle>) -> bool {
        s.len() >= 2 && s[1].time.minutes_from(s[0].time) >= 4
    }

    /// The candles after the opening range, as five-minute candles.
    pub open spec fn fives_of(self, s: Seq<MinuteCandle>, in_fives: bool) -> Seq<MinuteCandle> {
        let after = search_window(s, self.config.or_end, None);
        if in_fives {
            after
        } else {
            bars_of(after, 5)
        }
    }

    /// Prepares a day of the past: its opening range, and the five-minute candles after it.
    /// `None`: there is nothing to trade on.
    pub fn run_day(&self, candles: &Vec<MinuteCandle>) -> (r: Option<DayMaterial>)
        requires
            candles@.len() >= 2 ==> candles@[0].time.valid() && candles@[1].time.valid(),
            total_volume(search_window(candles@, self.config.or_end, None)) <= u64::MAX,
        ensures
            ({
                let range = range_in(candles@, self.config.or_start, self.config.or_end);
                let fives = self.fives_of(candles@, OrbFvgStrategy::in_fives(candles@));
                match r {
                    Some(m) => range == Some((m.or_high, m.or_low)) && m.candles_5m@ == fives
                        && fives.len() > 0,
                    None => range is None || fives.len() == 0,
                }
            }),
    {
        let in_fives: bool = candles.len() >= 2 && candles[1].time.minutes_since(candles[0].time)
            >= 4;
        match or_range(candles, self.config.or_start, self.config.or_end) {
            None => None,
            Some((or_high, or_low)) => {
                let after: Vec<MinuteCandle> = candles_to_search(candles, self.config.or_end, None);
                let candles_5m: Vec<MinuteCandle> = if in_fives {
                    after
                } else {
                    aggregate(&after, 5)
                };
                if candles_5m.len() == 0 {
                    None
                } else {
                    Some(DayMaterial { or_high, or_low, candles_5m })
                }
            },
        }
    }

    /// What a live evaluation looks at: the opening range, where there is one, and the five-minute
    /// candles after it.
    pub fn evaluate_candles(&self, candles_1m: &Vec<MinuteCandle>) -> (r: Option<DayMaterial>)
        requires
            total_volume(search_window(candles_1m@, self.config.or_end, None)) <= u64::MAX,
        ensures
            ({
                let range = range_in(candles_1m@, self.config.or_start, self.config.or_end);
                match r {
                    Some(m) => range == Some((m.or_high, m.or_low)) && m.candles_5m@
                        == self.fives_of(candles_1m@, false),
                    None => range is None,
                }
            }),
    {
        match or_range(candles_1m, self.config.or_start, self.config.or_end) {
            None => None,
            Some((or_high, or_low)) => {
                let after: Vec<MinuteCandle> = candles_to_search(
                    candles_1m,
                    self.config.or_end,
                    None,
                );
                Some(DayMaterial { or_high, or_low, candles_5m: aggregate(&after, 5) })
            },
        }
    }

    /// What a search for a gap goes by.  Every entry needs a break of the opening range; which side
    /// counts is looked at afterwards.
    pub fn search_config(&self, or_high: i64, or_low: i64) -> (r: SignalEngineConfig)
        ensures
            r.strategy_id@ == "orb_fvg"@,
            r.stage_name@ == "legacy_single_stage"@,
            r.or_high == or_high,
            r.or_low == or_low,
            r.fvg_expiry_candles == self.config.fvg_expiry_candles,
            r.entry_cutoff == self.config.entry_cutoff,
            r.require_or_breakout,
            r.min_or_breakout_pct == self.config.min_or_breakout_pct,
            r.long_only == self.config.long_only,
            r.confirmed_side is None,
    {
        SignalEngineConfig {
            strategy_id: "orb_fvg".to_owned(),
            stage_name: "legacy_single_stage".to_owned(),
            or_high,
            or_low,
            fvg_expiry_candles: self.config.fvg_expiry_candles,
            entry_cutoff: self.config.entry_cutoff,
            require_or_breakout: true,
            min_or_breakout_pct: self.config.min_or_breakout_pct,
            long_only: self.config.long_only,
            confirmed_side: None,
        }
    }

    /// The terms of an entry in the middle of a gap, in the candle in which price came back to it.
    pub open spec fn terms_of(
        self,
        detected: DetectedSignal,
        entry_time: TimeOfDay,
        reward: int,
        breakeven: i64,
        trailing: i64,
    ) -> ExitTerms {
        ExitTerms {
            side: detected.side,
            entry_price: detected.gap.mid_price,
            stop_loss: detected.gap.stop_loss,
            take_profit: target_at(detected.side, detected.gap.mid_price as int, reward) as i64,
            entry_time,
            breakeven,
            trailing,
            time_stop_candles: self.config.time_stop_candles,
            force_exit: self.config.force_exit,
        }
    }

    /// Enters a detected gap and follows the position to its end.  The gap was found in the
    /// candles from `from` on.  The answer is the entry, its end, and the place of the candle at
    /// which it ended.
    pub fn scan_and_trade(
        &self,
        candles_5m: &Vec<MinuteCandle>,
        from: usize,
        detected: &DetectedSignal,
        reward: i64,
        breakeven: i64,
        trailing: i64,
    ) -> (r: (ExitTerms, Option<SimulatedExit>, usize))
        requires
            from + detected.retrace_candle_idx < candles_5m@.len(),
            i64::MIN <= target_at(detected.side, detected.gap.mid_price as int, reward as int)
                <= i64::MAX,
            ({
                let at = from + detected.retrace_candle_idx;
                let terms = self.terms_of(
                    *detected,
                    candles_5m@[at].time,
                    reward as int,
                    breakeven,
                    trailing,
                );
                terms.computable_from(terms.at_entry(), candles_5m@.skip(at + 1), 0)
            }),
        ensures
            ({
                let at = from + detected.retrace_candle_idx;
                let terms = self.terms_of(
                    *detected,
                    candles_5m@[at].time,
                    reward as int,
                    breakeven,
                    trailing,
                );
                let end = terms.exit_from(terms.at_entry(), candles_5m@.skip(at + 1), 0);
                &&& r.0 == terms
                &&& r.1 == end
                &&& r.2 == (match end {
                    Some(e) => first_from(candles_5m@.skip(from as int), e.time),
                    None => candles_5m@.len() - from,
                })
            }),
            r.2 <= candles_5m@.len() - from,
    {
        let n: usize = candles_5m.len();
        let at: usize = from + detected.retrace_candle_idx;
        let take_profit: i64 = target_price(detected.side, detected.gap.mid_price, reward);
        let terms = ExitTerms {
            side: detected.side,
            entry_price: detected.gap.mid_price,
            stop_loss: detected.gap.stop_loss,
            take_profit,
            entry_time: candles_5m[at].time,
            breakeven,
            trailing,
            time_stop_candles: self.config.time_stop_candles,
            force_exit: self.config.force_exit,
        };
        let end: Option<SimulatedExit> = terms.simulate_exit(candles_5m, at + 1);
        let place: usize = match &end {
            Some(e) => place_from(candles_5m, from, e.time),
            None => n - from,
        };
        (terms, end, place)
    }

    /// What a price calls for: the stop before the target.
    pub open spec fn exit_at(position: Position, current_price: i64) -> Option<ExitReason> {
        if stop_hit(position.side, position.stop_loss, current_price) {
            Some(ExitReason::StopLoss)
        } else if target_hit(position.side, position.take_profit, current_price) {
            Some(ExitReason::TakeProfit)
        } else {
            None
        }
    }

    /// What a price calls for.
    pub fn check_exit(&self, position: &Position, current_price: i64) -> (r: Option<ExitReason>)
        ensures
            r == OrbFvgStrategy::exit_at(*position, current_price),
    {
        if is_sl_hit(position.side, position.stop_loss, current_price) {
            Some(ExitReason::StopLoss)
        } else if is_tp_hit(position.side, position.take_profit, current_price) {
            Some(ExitReason::TakeProfit)
        } else {
            None
        }
    }
}

/// Where a day of the past stands.
#[derive(Debug, Clone, Copy, PartialEq, Eq, Structural)]
pub enum PastStage {
    /// Look for a gap from the candle at `search_from` on.
    Search,
    /// The last trade has to be counted.
    Account { side: PositionSide, ended_at: usize },
    Done,
}

/// What a day of the past waits for.
#[derive(Debug, Clone, Copy, PartialEq, Eq, Structural)]
pub enum PastReply {
    /// No gap was found, or no candle came after it.
    Nothing,
    /// The trade that was found: its side, and how many candles on it ended.
    Found { side: PositionSide, ended_at: usize },
    /// The trade's result, and the day's.
    Result { pnl: DoubleBits, total: DoubleBits },
}

/// A day of the past is entered twice at most.
pub const MOST_PAST_ENTRIES: usize = 2;

/// A day of the past, traded step by step: first on a break of the opening range with a gap, then,
/// if that won, once more on the same side.
#[derive(Debug, Clone, Copy, PartialEq, Eq, Structural)]
pub struct PastDay {
    pub max_trades: usize,
    pub max_loss: DoubleBits,
    /// What the first trade has to bring for a second, in per cent.
    pub min_first: DoubleBits,
    pub candles: usize,
    pub stage: PastStage,
    pub trades: usize,
    pub total: DoubleBits,
    /// The side of the last trade, if it won enough: only that side counts.
    pub confirmed_side: Option<PositionSide>,
    pub search_from: usize,
}

impl PastDay {
    /// The places lie within the candles.
    pub open spec fn valid(self) -> bool {
        &&& self.trades <= self.max_trades
        &&& self.trades <= MOST_PAST_ENTRIES
        &&& self.search_from <= self.candles
        &&& self.candles < usize::MAX
        &&& (self.stage is Search ==> self.search_from < self.candles)
        &&& (self.stage matches PastStage::Account { ended_at, .. } ==> ended_at <= self.candles
            - self.search_from)
        &&& (!(self.stage is Done) ==> self.trades < self.max_trades && self.trades
            < MOST_PAST_ENTRIES && (self.trades > 0 ==> self.confirmed_side is Some))
    }

    /// Whether a reply is the one that is waited for.
    pub open spec fn awaits(self, reply: PastReply) -> bool {
        match self.stage {
            PastStage::Search => match reply {
                PastReply::Found { ended_at, .. } => ended_at <= self.candles - self.search_from,
                PastReply::Nothing => true,
                PastReply::Result { .. } => false,
            },
            PastStage::Account { .. } => reply is Result,
            PastStage::Done => false,
        }
    }

    /// No more trade is allowed: there were enough, the last one did not win enough, or the loss is
    /// too bad.
    pub open spec fn spent(self) -> bool {
        ||| self.trades >= self.max_trades
        ||| self.trades >= MOST_PAST_ENTRIES
        ||| self.trades > 0 && self.confirmed_side is None
        ||| self.total.no_greater(self.max_loss)
    }

    /// The day goes on while a trade is allowed and candles are left.
    pub open spec fn goes_on(self) -> PastDay {
        PastDay {
            stage: if self.spent() || self.search_from >= self.candles {
                PastStage::Done
            } else {
                PastStage::Search
            },
            ..self
        }
    }

    /// What a reply leads to.
    pub open spec fn next(self, reply: PastReply) -> PastDay {
        match reply {
            PastReply::Nothing => PastDay { stage: PastStage::Done, ..self },
            PastReply::Found { side, ended_at } => if self.confirmed_side is Some
                && self.confirmed_side->0 != side {
                PastDay {
                    search_from: (self.search_from + (if ended_at >= 1 {
                        ended_at
                    } else {
                        1
                    })) as usize,
                    ..self
                }.goes_on()
            } else {
                PastDay { stage: PastStage::Account { side, ended_at }, ..self }
            },
            PastReply::Result { pnl, total } => PastDay {
                trades: (self.trades + 1) as usize,
                total,
                confirmed_side: if pnl.greater(DoubleBits { bits: 0 }) && self.min_first.no_greater(
                    pnl,
                ) {
                    Some(self.stage->side)
                } else {
                    None
                },
                search_from: (self.search_from + self.stage->ended_at) as usize,
                ..self
            }.goes_on(),
        }
    }

    /// A new day.
    pub fn begin(config: &OrbFvgConfig, candles: usize) -> (r: PastDay)
        requires
            candles < usize::MAX,
        ensures
            r == (PastDay {
                max_trades: config.max_daily_trades,
                max_loss: config.max_daily_loss_pct,
                min_first: config.min_first_pnl_for_second,
                candles,
                stage: PastStage::Done,
                trades: 0,
                total: DoubleBits { bits: 0 },
                confirmed_side: None,
                search_from: 0,
            }).goes_on(),
            r.valid(),
    {
        let mut day = PastDay {
            max_trades: config.max_daily_trades,
            max_loss: config.max_daily_loss_pct,
            min_first: config.min_first_pnl_for_second,
            candles,
            stage: PastStage::Done,
            trades: 0,
            total: DoubleBits { bits: 0 },
            confirmed_side: None,
            search_from: 0,
        };
        day.go_on();
        day
    }

    fn go_on(&mut self)
        ensures
            *final(self) == old(self).goes_on(),
    {
        let lost: bool = self.trades > 0 && self.confirmed_side.is_none();
        let spent: bool = self.trades >= self.max_trades || self.trades >= MOST_PAST_ENTRIES || lost
            || self.total.at_most(self.max_loss);
        self.stage =
        if spent || self.search_from >= self.candles {
            PastStage::Done
        } else {
            PastStage::Search
        };
    }

    /// Takes in what came back.
    pub fn step(&mut self, reply: PastReply)
        requires
            old(self).valid(),
            old(self).awaits(reply),
        ensures
            *final(self) == old(self).next(reply),
            final(self).valid(),
            old(self).stage is Search && !(final(self).stage is Account) ==> final(self).stage
                is Done || final(self).search_from > old(self).search_from,
    {
        match reply {
            PastReply::Nothing => {
                self.stage = PastStage::Done;
            },
            PastReply::Found { side, ended_at } => {
                let other: bool = match self.confirmed_side {
                    Some(c) => c != side,
                    None => false,
                };
                if other {
                    let on: usize = if ended_at >= 1 {
                        ended_at
                    } else {
                        1
                    };
                    self.search_from = self.search_from + on;
                    self.go_on();
                } else {
                    self.stage = PastStage::Account { side, ended_at };
                }
            },
            PastReply::Result { pnl, total } => {
                if let PastStage::Account { side, ended_at } = self.stage {
                    self.trades = self.trades + 1;
                    self.total = total;
                    self.confirmed_side =
                    if pnl.exceeds(DoubleBits { bits: 0 }) && self.min_first.at_most(pnl) {
                        Some(side)
                    } else {
                        None
                    };
                    self.search_from = self.search_from + ended_at;
                    self.go_on();
                }
            },
        }
    }
}

/// A day of the past has two trades at most, and no more than the rules allow.  A loss ends it, a
/// first trade that did not bring enough ends it, and so does a total as bad as the limit.  The
/// search never goes back.
pub proof fn past_days_keep_their_limits(day: PastDay, reply: PastReply)
    requires
        day.valid(),
        day.awaits(reply),
    ensures
        day.next(reply).valid(),
        day.next(reply).trades <= day.max_trades,
        day.next(reply).trades <= MOST_PAST_ENTRIES,
        day.trades <= day.next(reply).trades <= day.trades + 1,
        reply is Result && !reply->pnl.greater(DoubleBits { bits: 0 }) ==> day.next(reply).stage
            is Done,
        reply is Result && !day.min_first.no_greater(reply->pnl) ==> day.next(reply).stage is Done,
        reply is Result && reply->total.no_greater(day.max_loss) ==> day.next(reply).stage is Done,
        day.next(reply).search_from >= day.search_from,
{
}

/// The second trade of a day of the past is on the side of the first, which won.
pub proof fn second_trade_follows_the_first(day: PastDay, reply: PastReply)
    requires
        day.valid(),
        day.awaits(reply),
        day.trades == 1,
        day.next(reply).stage is Account,
    ensures
        day.confirmed_side == Some(day.next(reply).stage->side),
{
}

/// The best price of a candle as the position sees it.
pub open spec fn best_seen(side: PositionSide, c: MinuteCandle) -> int {
    match side {
        PositionSide::Long => seen(side, c.high as int),
        PositionSide::Short => seen(side, c.low as int),
    }
}

/// The worst price of a candle as the position sees it.
pub open spec fn worst_seen(side: PositionSide, c: MinuteCandle) -> int {
    match side {
        PositionSide::Long => seen(side, c.low as int),
        PositionSide::Short => seen(side, c.high as int),
    }
}

/// The best price of the entry and the first `k` candles, as the position sees it.
pub open spec fn peak(terms: ExitTerms, s: Seq<MinuteCandle>, k: int) -> int
    decreases k,
{
    if k <= 0 {
        seen(terms.side, terms.entry_price as int)
    } else if best_seen(terms.side, s[k - 1]) > peak(terms, s, k - 1) {
        best_seen(terms.side, s[k - 1])
    } else {
        peak(terms, s, k - 1)
    }
}

/// One of the first `k` candles earned the break-even distance.
pub open spec fn earned(terms: ExitTerms, s: Seq<MinuteCandle>, k: int) -> bool {
    k > 0 && peak(terms, s, k) - seen(terms.side, terms.entry_price as int) >= terms.breakeven
}

/// Where the stop has to stand after the first `k` candles, as the position sees it: where it was
/// set, until the break-even distance was earned; then at the entry, or the trailing distance
/// behind the best price where that is better.
pub open spec fn stop_level(terms: ExitTerms, s: Seq<MinuteCandle>, k: int) -> int {
    if !earned(terms, s, k) {
        seen(terms.side, terms.stop_loss as int)
    } else if peak(terms, s, k) - terms.trailing > seen(terms.side, terms.entry_price as int) {
        peak(terms, s, k) - terms.trailing
    } else {
        seen(terms.side, terms.entry_price as int)
    }
}

/// The candle at place `k` opens at the stop or beyond it.
pub open spec fn opens_beyond(terms: ExitTerms, s: Seq<MinuteCandle>, k: int) -> bool {
    seen(terms.side, s[k].open as int) <= stop_level(terms, s, k)
}

/// The candle at place `k` reaches the target.
pub open spec fn reaches_target(terms: ExitTerms, s: Seq<MinuteCandle>, k: int) -> bool {
    best_seen(terms.side, s[k]) >= seen(terms.side, terms.take_profit as int)
}

/// The candle at place `k` reaches the stop, which has followed its best price.
pub open spec fn reaches_stop(terms: ExitTerms, s: Seq<MinuteCandle>, k: int) -> bool {
    worst_seen(terms.side, s[k]) <= stop_level(terms, s, k + 1)
}

/// At the candle at place `k` the position has had its time without earning the break-even
/// distance.
pub open spec fn out_of_time(terms: ExitTerms, s: Seq<MinuteCandle>, k: int) -> bool {
    k + 1 >= terms.time_stop_candles && !earned(terms, s, k + 1)
}

/// The candle at place `k` begins at the end of the day or later.
pub open spec fn day_over(terms: ExitTerms, s: Seq<MinuteCandle>, k: int) -> bool {
    s[k].time.secs > terms.force_exit.secs || (s[k].time.secs == terms.force_exit.secs
        && s[k].time.nanos >= terms.force_exit.nanos)
}

/// Nothing ends the position at the candle at place `k`.
pub open spec fn passes(terms: ExitTerms, s: Seq<MinuteCandle>, k: int) -> bool {
    !opens_beyond(terms, s, k) && !reaches_target(terms, s, k) && !reaches_stop(terms, s, k)
        && !out_of_time(terms, s, k) && !day_over(terms, s, k)
}

/// `end` is what the candle at place `k` calls for.
pub open spec fn called_for(
    terms: ExitTerms,
    s: Seq<MinuteCandle>,
    k: int,
    end: SimulatedExit,
) -> bool {
    &&& 0 <= k < s.len()
    &&& forall|j: int| 0 <= j < k ==> #[trigger] passes(terms, s, j)
    &&& end.time == s[k].time
    &&& match end.cause {
        ExitCause::GapStop { reached_1r } => opens_beyond(terms, s, k) && end.price == s[k].open
            && reached_1r == earned(terms, s, k),
        ExitCause::TakeProfit => !opens_beyond(terms, s, k) && reaches_target(terms, s, k)
            && end.price == terms.take_profit,
        ExitCause::Stopped { stop_loss, reached_1r } => {
            &&& !opens_beyond(terms, s, k) && !reaches_target(terms, s, k) && reaches_stop(
                terms,
                s,
                k,
            )
            &&& seen(terms.side, end.price as int) == stop_level(terms, s, k + 1)
            &&& stop_loss == end.price
            &&& reached_1r == earned(terms, s, k + 1)
        },
        ExitCause::TimeStop => {
            &&& !opens_beyond(terms, s, k) && !reaches_target(terms, s, k) && !reaches_stop(
                terms,
                s,
                k,
            )
            &&& out_of_time(terms, s, k)
            &&& end.price == s[k].close
        },
        ExitCause::EndOfDay => {
            &&& !opens_beyond(terms, s, k) && !reaches_target(terms, s, k) && !reaches_stop(
                terms,
                s,
                k,
            ) && !out_of_time(terms, s, k)
            &&& day_over(terms, s, k) || k == s.len() - 1
            &&& end.price == s[k].close
        },
    }
}

/// The terms make sense: the stop is no better than the entry, and the trailing levels of the
/// entry and of every candle fit into 64 bits.
pub open spec fn sensible(terms: ExitTerms, s: Seq<MinuteCandle>) -> bool {
    &&& seen(terms.side, terms.stop_loss as int) <= seen(terms.side, terms.entry_price as int)
    &&& level_fits(terms.side, terms.entry_price, terms.trailing)
    &&& forall|i: int|
        0 <= i < s.len() ==> level_fits(terms.side, (#[trigger] s[i]).high, terms.trailing)
            && level_fits(terms.side, s[i].low, terms.trailing)
}

/// The levels that a walk over the first `k` candles left.
pub open spec fn levels_after(terms: ExitTerms, s: Seq<MinuteCandle>, k: int, t: Trail) -> bool {
    &&& seen(terms.side, t.best as int) == peak(terms, s, k)
    &&& t.reached_1r == earned(terms, s, k)
    &&& seen(terms.side, t.stop as int) == stop_level(terms, s, k)
    &&& level_fits(terms.side, t.best, terms.trailing)
}

proof fn levels_follow(terms: ExitTerms, s: Seq<MinuteCandle>, k: int, t: Trail)
    requires
        sensible(terms, s),
        0 <= k < s.len(),
        levels_after(terms, s, k, t),
    ensures
        levels_after(terms, s, k + 1, terms.after_candle(t, s[k])),
{
    assert(level_fits(terms.side, s[k].high, terms.trailing));
}

proof fn walk_ends_as_called_for(terms: ExitTerms, s: Seq<MinuteCandle>, k: int, t: Trail)
    requires
        sensible(terms, s),
        s.len() > 0,
        0 <= k <= s.len(),
        levels_after(terms, s, k, t),
        forall|j: int| 0 <= j < k ==> #[trigger] passes(terms, s, j),
    ensures
        terms.exit_from(t, s, k) is Some,
        exists|j: int| #[trigger] called_for(terms, s, j, terms.exit_from(t, s, k)->0),
    decreases s.len() - k,
{
    if k < s.len() {
        levels_follow(terms, s, k, t);
        let u = terms.after_candle(t, s[k]);
        if terms.ended_by(t, s[k], k + 1) is Some {
            assert(called_for(terms, s, k, terms.ended_by(t, s[k], k + 1)->0));
        } else {
            assert(passes(terms, s, k));
            walk_ends_as_called_for(terms, s, k + 1, u);
        }
    } else {
        assert(passes(terms, s, s.len() - 1));
        assert(called_for(terms, s, s.len() - 1, terms.exit_from(t, s, k)->0));
    }
}

/// A position of the past ends at the first candle that calls for it, and as that candle calls
/// for it: by a gap beyond the stop at the open, by the target at the target, by the stop at the
/// stop, by the time stop or by the end of the day at the close, in this order.
pub proof fn first_due_candle_ends_the_position(terms: ExitTerms, s: Seq<MinuteCandle>)
    requires
        sensible(terms, s),
        s.len() > 0,
    ensures
        terms.exit_from(terms.at_entry(), s, 0) is Some,
        exists|k: int| #[trigger]
            called_for(terms, s, k, terms.exit_from(terms.at_entry(), s, 0)->0),
{
    walk_ends_as_called_for(terms, s, 0, terms.at_entry());
}

proof fn peak_holds_all(terms: ExitTerms, s: Seq<MinuteCandle>, k: int)
    requires
        0 <= k <= s.len(),
    ensures
        peak(terms, s, k) >= seen(terms.side, terms.entry_price as int),
        forall|j: int| 0 <= j < k ==> peak(terms, s, k) >= best_seen(terms.side, #[trigger] s[j]),
    decreases k,
{
    if k > 0 {
        peak_holds_all(terms, s, k - 1);
    }
}

/// The candle at place `k` ends a position by the time stop.
pub open spec fn time_stopped(
    terms: ExitTerms,
    s: Seq<MinuteCandle>,
    k: int,
    end: SimulatedExit,
) -> bool {
    &&& 0 <= k < s.len()
    &&& end.time == s[k].time
    &&& end.price == s[k].close
    &&& k + 1 >= terms.time_stop_candles
    &&& forall|j: int|
        0 <= j <= k ==> (match terms.side {
            PositionSide::Long => (#[trigger] s[j]).high - terms.entry_price,
            PositionSide::Short => terms.entry_price - s[j].low,
        }) < terms.breakeven
}

/// The time stop spares what earns: it ends a position only at a candle up to which no price
/// earned the break-even distance, once the position has had all its candles.
pub proof fn time_stop_spares_winners(terms: ExitTerms, s: Seq<MinuteCandle>)
    requires
        sensible(terms, s),
        s.len() > 0,
        terms.exit_from(terms.at_entry(), s, 0)->0.cause is TimeStop,
    ensures
        exists|k: int| #[trigger]
            time_stopped(terms, s, k, terms.exit_from(terms.at_entry(), s, 0)->0),
{
    let end = terms.exit_from(terms.at_entry(), s, 0)->0;
    first_due_candle_ends_the_position(terms, s);
    let k = choose|k: int| #[trigger] called_for(terms, s, k, end);
    peak_holds_all(terms, s, k + 1);
    assert forall|j: int| 0 <= j <= k implies (match terms.side {
        PositionSide::Long => (#[trigger] s[j]).high - terms.entry_price,
        PositionSide::Short => terms.entry_price - s[j].low,
    }) < terms.breakeven by {
        assert(peak(terms, s, k + 1) >= best_seen(terms.side, s[j]));
    }
    assert(time_stopped(terms, s, k, end));
}

/// A position that ends by its target earns exactly what the target promised; one that is stopped
/// loses exactly what it risked, or nothing once it has reached 1R.
pub proof fn ends_pay_what_they_promise(terms: ExitTerms, s: Seq<MinuteCandle>)
    requires
        sensible(terms, s),
        s.len() > 0,
    ensures
        ({
            let end = terms.exit_from(terms.at_entry(), s, 0)->0;
            match end.cause {
                ExitCause::TakeProfit => end.price == terms.take_profit,
                ExitCause::Stopped { reached_1r, .. } => if reached_1r {
                    seen(terms.side, end.price as int) >= seen(
                        terms.side,
                        terms.entry_price as int,
                    )
                } else {
                    end.price == terms.stop_loss
                },
                _ => true,
            }
        }),
{
    first_due_candle_ends_the_position(terms, s);
}

/// The trade of a past position says where it was entered, where and when it ended, and why.
pub proof fn trades_report_the_end(terms: ExitTerms, end: SimulatedExit, stop_reason: ExitReason)
    ensures
        ({
            let trade = terms.trade_of(end, stop_reason);
            &&& trade.side == terms.side
            &&& trade.entry_price == terms.entry_price
            &&& trade.exit_price == end.price
            &&& trade.stop_loss == terms.stop_loss
            &&& trade.take_profit == terms.take_profit
            &&& trade.entry_time == terms.entry_time
            &&& trade.exit_time == end.time
            &&& trade.exit_reason is TakeProfit <== end.cause is TakeProfit
            &&& trade.exit_reason is TimeStop <== end.cause is TimeStop
            &&& trade.exit_reason is EndOfDay <== end.cause is EndOfDay
            &&& trade.exit_reason == stop_reason <== end.cause is GapStop || end.cause is Stopped
        }),
{
}

/// A past position is entered in the middle of its gap with the gap's stop, and its target lies
/// the reward away in its favour.
pub proof fn terms_follow_the_gap(
    strategy: OrbFvgStrategy,
    detected: DetectedSignal,
    entry_time: TimeOfDay,
    reward: i64,
    breakeven: i64,
    trailing: i64,
)
    requires
        i64::MIN <= detected.gap.mid_price + reward <= i64::MAX,
        i64::MIN <= detected.gap.mid_price - reward <= i64::MAX,
    ensures
        ({
            let terms = strategy.terms_of(
                detected,
                entry_time,
                reward as int,
                breakeven,
                trailing,
            );
            &&& terms.side == detected.side
            &&& terms.entry_price == detected.gap.mid_price
            &&& terms.stop_loss == detected.gap.stop_loss
            &&& seen(terms.side, terms.take_profit as int) - seen(
                terms.side,
                terms.entry_price as int,
            ) == reward
            &&& terms.entry_time == entry_time
            &&& terms.breakeven == breakeven
            &&& terms.trailing == trailing
            &&& terms.time_stop_candles == strategy.config.time_stop_candles
            &&& terms.force_exit == strategy.config.force_exit
        }),
{
}

/// The place of the first candle from a time on: all before it are earlier, and it is not.
pub proof fn first_place_is_first(s: Seq<MinuteCandle>, t: TimeOfDay)
    ensures
        0 <= first_from(s, t) <= s.len(),
        forall|j: int|
            0 <= j < first_from(s, t) ==> (#[trigger] s[j]).time.secs < t.secs || (s[j].time.secs
                == t.secs && s[j].time.nanos < t.nanos),
        first_from(s, t) < s.len() ==> {
            let c = s[first_from(s, t)];
            c.time.secs > t.secs || (c.time.secs == t.secs && c.time.nanos >= t.nanos)
        },
    decreases s.len(),
{
    if s.len() > 0 && s[0].time.earlier(t) {
        let rest = s.drop_first();
        first_place_is_first(rest, t);
        assert forall|j: int| 0 <= j < first_from(s, t) implies (#[trigger] s[j]).time.secs < t.secs
            || (s[j].time.secs == t.secs && s[j].time.nanos < t.nanos) by {
            if j > 0 {
                assert(rest[j - 1] == s[j]);
            }
        }
        if first_from(s, t) < s.len() {
            assert(rest[first_from(rest, t)] == s[first_from(s, t)]);
        }
    }
}

/// A day of the past goes on after a first trade that won enough: with trades, money and candles
/// left it looks for another one, behind the first and on its side alone.
pub proof fn a_winner_is_followed(day: PastDay, pnl: DoubleBits, total: DoubleBits)
    requires
        day.valid(),
        day.stage is Account,
        day.trades == 0,
        day.max_trades >= 2,
        pnl.greater(DoubleBits { bits: 0 }),
        day.min_first.no_greater(pnl),
        !total.no_greater(day.max_loss),
        day.search_from + day.stage->ended_at < day.candles,
    ensures
        ({
            let after = day.next(PastReply::Result { pnl, total });
            &&& after.stage is Search
            &&& after.trades == 1
            &&& after.total == total
            &&& after.confirmed_side == Some(day.stage->side)
            &&& after.search_from == day.search_from + day.stage->ended_at
        }),
{
}

/// A trade that is found is counted unless it is on the wrong side of a winner; then the search
/// goes on behind it, and nothing is counted.
pub proof fn found_trades_count(day: PastDay, side: PositionSide, ended_at: usize)
    requires
        day.valid(),
        day.awaits(PastReply::Found { side, ended_at }),
    ensures
        ({
            let after = day.next(PastReply::Found { side, ended_at });
            let wrong = day.confirmed_side matches Some(s) && s != side;
            &&& !wrong ==> after.stage == PastStage::Account { side, ended_at }
            &&& wrong ==> !(after.stage is Account) && after.search_from > day.search_from
                && after.search_from >= day.search_from + ended_at && after.search_from
                <= day.search_from + ended_at + 1
            &&& after.trades == day.trades
            &&& after.total == day.total
            &&& after.confirmed_side == day.confirmed_side
        }),
{
}

/// The usual settings: the opening range lasts from nine o'clock to a quarter past, entries are
/// made until twenty past three, and five minutes later all is closed.  Twice the risk is aimed
/// for; half of it is the distance at which the stop follows; six candles are given to a position
/// and four to a gap; and only rising prices are traded, five times a day at most.
pub proof fn usual_settings_are_these()
    ensures
        ({
            let c = OrbFvgConfig::usual();
            &&& c.or_start.secs == 9 * 3600 && c.or_start.nanos == 0
            &&& c.or_end.secs == 9 * 3600 + 15 * 60 && c.or_end.nanos == 0
            &&& c.entry_cutoff.secs == 15 * 3600 + 20 * 60 && c.entry_cutoff.nanos == 0
            &&& c.force_exit.secs == 15 * 3600 + 25 * 60 && c.force_exit.nanos == 0
            &&& c.time_stop_candles == 6
            &&& c.fvg_expiry_candles == 4
            &&& c.max_daily_trades == 5
            &&& c.long_only
            &&& c.rr_ratio.bits == 0x4000_0000_0000_0000
            &&& c.trailing_r.bits == 0x3fe0_0000_0000_0000
            &&& c.breakeven_r.bits == 0x3ff0_0000_0000_0000
            &&& c.atr_sl_multiplier.bits == 0x3ff8_0000_0000_0000
            &&& c.min_or_breakout_pct.bits == 0x3f50_624d_d2f1_a9fc
            &&& c.min_first_pnl_for_second.bits == 0x3fe0_0000_0000_0000
            &&& c.max_daily_loss_pct.bits == 0xbff8_0000_0000_0000
        }),
{
}

/// Candles are taken for five-minute candles where the second begins four whole minutes after the
/// first or later.  What is traded on are the candles from the end of the opening range on, as they
/// are or summed up to five minutes.
pub proof fn candles_of_five_minutes_are_known_by_their_distance(
    strategy: OrbFvgStrategy,
    s: Seq<MinuteCandle>,
)
    requires
        s.len() >= 2 ==> s[0].time.valid() && s[1].time.valid(),
    ensures
        s.len() < 2 ==> !OrbFvgStrategy::in_fives(s),
        s.len() >= 2 ==> (OrbFvgStrategy::in_fives(s) <==> (s[1].time.secs - s[0].time.secs)
            * 1_000_000_000 + s[1].time.nanos - s[0].time.nanos >= 240_000_000_000),
        strategy.fives_of(s, true) == search_window(s, strategy.config.or_end, None),
        strategy.fives_of(s, false) == bars_of(strategy.fives_of(s, true), 5),
{
    if s.len() >= 2 {
        crate::clock::whole_minutes_fit(s[1].time, s[0].time);
    }
}

/// A price calls for the stop where it has reached it, else for the target where it has reached
/// that, and else for nothing.
pub proof fn prices_call_for_stop_or_target(p: Position, price: i64)
    ensures
        ({
            let at_stop = match p.side {
                PositionSide::Long => price <= p.stop_loss,
                PositionSide::Short => price >= p.stop_loss,
            };
            let at_target = match p.side {
                PositionSide::Long => price >= p.take_profit,
                PositionSide::Short => price <= p.take_profit,
            };
            OrbFvgStrategy::exit_at(p, price) == (if at_stop {
                Some(ExitReason::StopLoss)
            } else if at_target {
                Some(ExitReason::TakeProfit)
            } else {
                None
            })
        }),
{
}

} // verus!
