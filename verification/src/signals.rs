//! Entry signals: from a detected gap to the levels of an entry.

use crate::clock::TimeOfDay;
use crate::double::DoubleBits;
use crate::records::{distance, price_distance};
use crate::text::{decimal, push_i64, push_text, push_u64};
use crate::types::{MinuteCandle, Position, PositionSide};
use vstd::prelude::*;

verus! {

/// A gap that price left behind.
#[derive(Debug, Clone, Copy, PartialEq, Eq, Structural)]
pub struct FairValueGap {
    pub top: i64,
    pub bottom: i64,
    /// The price in the middle of the gap.
    pub mid_price: i64,
    /// Where an entry on the gap is given up.
    pub stop_loss: i64,
}

/// What made a gap worth entering on.
#[derive(Debug, Clone, Copy, PartialEq, Eq, Structural)]
pub struct GapQuality {
    pub gap_size_pct: DoubleBits,
    pub b_body_ratio: DoubleBits,
    pub or_breakout_pct: DoubleBits,
    pub b_volume: u64,
    pub b_close: i64,
    pub a_range: i64,
    /// The time of the candle that left the gap.
    pub b_time: TimeOfDay,
}

/// A gap that was found and that price came back to.
#[derive(Debug, Clone, Copy, PartialEq, Eq, Structural)]
pub struct DetectedSignal {
    pub side: PositionSide,
    pub signal_time: TimeOfDay,
    pub gap: FairValueGap,
    pub quality: GapQuality,
    /// The place of the candle in which price came back to the gap.
    pub retrace_candle_idx: usize,
}

/// What a search for a signal goes by.
#[derive(Debug, Clone)]
pub struct SignalEngineConfig {
    pub strategy_id: String,
    pub stage_name: String,
    pub or_high: i64,
    pub or_low: i64,
    pub fvg_expiry_candles: usize,
    pub entry_cutoff: TimeOfDay,
    pub require_or_breakout: bool,
    pub min_or_breakout_pct: DoubleBits,
    pub long_only: bool,
    pub confirmed_side: Option<PositionSide>,
}

/// A way to find the next signal in a row of five-minute candles.
pub trait SignalEngine {
    fn detect_next(&self, candles_5m: &Vec<MinuteCandle>, config: &SignalEngineConfig) -> Option<
        DetectedSignal,
    >;
}

/// An entry signal.
#[derive(Debug, Clone, Copy)]
pub struct BestSignal {
    pub side: PositionSide,
    pub entry_price: i64,
    pub stop_loss: i64,
    pub take_profit: i64,
    /// The stage of the opening range that it goes by.
    pub stage_name: &'static str,
    pub or_high: i64,
    pub or_low: i64,
    pub signal_time: TimeOfDay,
    pub gap_top: i64,
    pub gap_bottom: i64,
    pub quality: GapQuality,
}

/// The edge of a gap that price meets first when it comes back.
pub open spec fn near_edge(side: PositionSide, gap: FairValueGap) -> i64 {
    match side {
        PositionSide::Long => gap.top,
        PositionSide::Short => gap.bottom,
    }
}

/// The edge of a gap that price meets first when it comes back.
pub fn entry_edge(side: PositionSide, gap: &FairValueGap) -> (r: i64)
    ensures
        r == near_edge(side, *gap),
{
    match side {
        PositionSide::Long => gap.top,
        PositionSide::Short => gap.bottom,
    }
}

/// What an entry at a price risks with the gap's stop.
pub fn gap_risk(entry_price: i64, gap: &FairValueGap) -> (r: i64)
    requires
        distance(entry_price as int, gap.stop_loss as int) <= i64::MAX,
    ensures
        r == distance(entry_price as int, gap.stop_loss as int),
{
    price_distance(entry_price, gap.stop_loss)
}

/// The price `reward` away in the position's favour.
pub open spec fn target_at(side: PositionSide, price: int, reward: int) -> int {
    match side {
        PositionSide::Long => price + reward,
        PositionSide::Short => price - reward,
    }
}

/// The price `reward` away in the position's favour.
pub fn target_price(side: PositionSide, price: i64, reward: i64) -> (r: i64)
    requires
        i64::MIN <= target_at(side, price as int, reward as int) <= i64::MAX,
    ensures
        r == target_at(side, price as int, reward as int),
{
    match side {
        PositionSide::Long => price + reward,
        PositionSide::Short => price - reward,
    }
}

impl BestSignal {
    /// The entry signal of a detected gap: entered at the edge that price meets first, so that
    /// coming back to the gap fills it.  `reward` is the target's distance that belongs to the
    /// risk.
    pub fn of_detected(
        detected: &DetectedSignal,
        stage_name: &'static str,
        or_high: i64,
        or_low: i64,
        reward: i64,
    ) -> (r: BestSignal)
        requires
            i64::MIN <= target_at(
                detected.side,
                near_edge(detected.side, detected.gap) as int,
                reward as int,
            ) <= i64::MAX,
        ensures
            r.side == detected.side,
            r.entry_price == near_edge(detected.side, detected.gap),
            r.stop_loss == detected.gap.stop_loss,
            r.take_profit == target_at(
                detected.side,
                near_edge(detected.side, detected.gap) as int,
                reward as int,
            ),
            r.stage_name == stage_name,
            r.or_high == or_high,
            r.or_low == or_low,
            r.signal_time == detected.signal_time,
            r.gap_top == detected.gap.top,
            r.gap_bottom == detected.gap.bottom,
            r.quality == detected.quality,
    {
        let entry_price: i64 = entry_edge(detected.side, &detected.gap);
        BestSignal {
            side: detected.side,
            entry_price,
            stop_loss: detected.gap.stop_loss,
            take_profit: target_price(detected.side, entry_price, reward),
            stage_name,
            or_high,
            or_low,
            signal_time: detected.signal_time,
            gap_top: detected.gap.top,
            gap_bottom: detected.gap.bottom,
            quality: detected.quality,
        }
    }

    /// The name of a signal: stock, stage, times of the signal and of its gap, side and price,
    /// with colons between them.
    pub open spec fn id_words(self, stock_code: Seq<char>) -> Seq<char> {
        stock_code + ":"@ + self.stage_name@ + ":"@ + self.signal_time.compact() + ":"@
            + self.quality.b_time.compact() + ":"@ + self.side.name() + ":"@ + decimal(
            self.entry_price as int,
        )
    }

    /// The name of a signal.
    pub fn signal_id(&self, stock_code: &str) -> (r: String)
        requires
            self.signal_time.valid(),
            self.quality.b_time.valid(),
        ensures
            r@ == self.id_words(stock_code@),
    {
        let mut out: String = stock_code.to_owned();
        push_text(&mut out, ":");
        push_text(&mut out, self.stage_name);
        push_text(&mut out, ":");
        let t: String = self.signal_time.format_compact();
        push_text(&mut out, t.as_str());
        push_text(&mut out, ":");
        let b: String = self.quality.b_time.format_compact();
        push_text(&mut out, b.as_str());
        push_text(&mut out, ":");
        push_text(&mut out, self.side.label());
        push_text(&mut out, ":");
        push_i64(&mut out, self.entry_price);
        out
    }
}

/// The name of an execution: stock, time, price and quantity, with colons between them.
pub open spec fn execution_words(
    stock_code: Seq<char>,
    entry_time: TimeOfDay,
    entry_price: i64,
    quantity: u64,
) -> Seq<char> {
    stock_code + ":"@ + entry_time.compact() + ":"@ + decimal(entry_price as int) + ":"@ + decimal(
        quantity as int,
    )
}

/// The name of an execution.
pub fn signal_execution_id(
    stock_code: &str,
    entry_time: TimeOfDay,
    entry_price: i64,
    quantity: u64,
) -> (r: String)
    requires
        entry_time.valid(),
    ensures
        r@ == execution_words(stock_code@, entry_time, entry_price, quantity),
{
    let mut out: String = stock_code.to_owned();
    push_text(&mut out, ":");
    let t: String = entry_time.format_compact();
    push_text(&mut out, t.as_str());
    push_text(&mut out, ":");
    push_i64(&mut out, entry_price);
    push_text(&mut out, ":");
    push_u64(&mut out, quantity);
    out
}

/// The name of the execution that a position came from.
pub fn position_execution_id(stock_code: &str, pos: &Position) -> (r: String)
    requires
        pos.entry_time.valid(),
    ensures
        r@ == execution_words(stock_code@, pos.entry_time, pos.entry_price, pos.quantity),
{
    signal_execution_id(stock_code, pos.entry_time, pos.entry_price, pos.quantity)
}

/// How far the search for signals has come.
#[derive(Debug, Clone, Copy, PartialEq, Eq, Structural)]
pub struct LiveSignalState {
    /// Only candles after this time are searched.
    pub search_after: Option<TimeOfDay>,
}

impl Default for LiveSignalState {
    fn default() -> (r: Self)
        ensures
            r.search_after is None,
    {
        LiveSignalState { search_after: None }
    }
}

impl LiveSignalState {
    /// The search moved on past a signal that was given up; it never moves back.
    pub open spec fn past(self, signal_time: TimeOfDay) -> LiveSignalState {
        LiveSignalState {
            search_after: match self.search_after {
                Some(t) if signal_time.earlier(t) => Some(t),
                _ => Some(signal_time),
            },
        }
    }

    /// Gives up a signal for good.
    pub fn give_up(&mut self, signal_time: TimeOfDay)
        ensures
            *final(self) == old(self).past(signal_time),
    {
        let next: TimeOfDay = match self.search_after {
            Some(t) => if signal_time.is_before(t) {
                t
            } else {
                signal_time
            },
            None => signal_time,
        };
        self.search_after = Some(next);
    }

    /// A position was closed: the search goes on after that.
    pub fn closed_at(&mut self, exit_time: TimeOfDay)
        ensures
            final(self).search_after == Some(exit_time),
    {
        self.search_after = Some(exit_time);
    }
}

/// A signal that was given up is behind the search, and so is all that was behind it before.
pub proof fn given_up_signals_stay_behind(
    state: LiveSignalState,
    signal_time: TimeOfDay,
    t: TimeOfDay,
)
    ensures
        state.past(signal_time).search_after is Some,
        !state.past(signal_time).search_after->0.earlier(signal_time),
        state.search_after is Some && !state.search_after->0.earlier(t)
            ==> !state.past(signal_time).search_after->0.earlier(t),
{
}

/// An entry on a gap waits where price comes from: at the upper edge of a gap below the price, at
/// the lower edge of one above it; its target lies the reward beyond.
pub proof fn gaps_are_entered_at_the_near_edge(side: PositionSide, gap: FairValueGap, reward: int)
    ensures
        side is Long ==> near_edge(side, gap) == gap.top,
        side is Short ==> near_edge(side, gap) == gap.bottom,
        side is Long ==> target_at(side, near_edge(side, gap) as int, reward) - gap.top == reward,
        side is Short ==> gap.bottom - target_at(side, near_edge(side, gap) as int, reward)
            == reward,
{
}

/// Where the search goes on after a signal was given up: behind the later of the two times.
pub proof fn search_goes_on_behind_the_later(state: LiveSignalState, signal_time: TimeOfDay)
    ensures
        state.search_after is None ==> state.past(signal_time).search_after == Some(signal_time),
        state.search_after matches Some(t) ==> {
            let signal_first = signal_time.secs < t.secs || (signal_time.secs == t.secs
                && signal_time.nanos < t.nanos);
            state.past(signal_time).search_after == Some(
                if signal_first {
                    t
                } else {
                    signal_time
                },
            )
        },
{
}

/// A signal's name begins with its stock, its stage and the two times, in this order, and ends with
/// its side and its price.
pub proof fn signal_names_hold_their_parts(s: BestSignal, code: Seq<char>)
    ensures
        ({
            let colon = ":"@;
            let side = if s.side is Long {
                "Long"@
            } else {
                "Short"@
            };
            let head = code + colon + s.stage_name@;
            let times = s.signal_time.compact() + colon + s.quality.b_time.compact();
            s.id_words(code) == head + colon + times + colon + side + colon + decimal(
                s.entry_price as int,
            )
        }),
{
    let colon = ":"@;
    let side = s.side.name();
    let head = code + colon + s.stage_name@;
    let times = s.signal_time.compact() + colon + s.quality.b_time.compact();
    assert(s.id_words(code) =~= head + colon + times + colon + side + colon + decimal(
        s.entry_price as int,
    ));
}

/// An execution's name holds its stock, its time, its price and its quantity, in this order.
pub proof fn execution_names_hold_their_parts(
    code: Seq<char>,
    time: TimeOfDay,
    price: i64,
    quantity: u64,
)
    ensures
        execution_words(code, time, price, quantity) == code + (":"@ + (time.compact() + (":"@ + (
        decimal(price as int) + (":"@ + decimal(quantity as int)))))),
{
    assert(execution_words(code, time, price, quantity) =~= code + (":"@ + (time.compact() + (":"@
        + (decimal(price as int) + (":"@ + decimal(quantity as int)))))));
}

} // verus!
