//! Orders, positions and candles.

use crate::clock::{LocalDateTime, TimeOfDay};
use vstd::prelude::*;

verus! {

/// Which way a position earns.
#[derive(Debug, Clone, Copy, PartialEq, Eq, Structural)]
pub enum PositionSide {
    Long,
    Short,
}

/// Which way an order goes.
#[derive(Debug, Clone, Copy, PartialEq, Eq, Structural)]
pub enum OrderSide {
    Buy,
    Sell,
}

/// Why a position was closed.
#[derive(Debug, Clone, Copy, PartialEq, Eq, Structural)]
pub enum ExitReason {
    StopLoss,
    BreakevenStop,
    TrailingStop,
    TakeProfit,
    TimeStop,
    EndOfDay,
}

/// An open position, with the orders and levels that protect it.
#[derive(Debug, Clone)]
pub struct Position {
    pub side: PositionSide,
    pub entry_price: i64,
    pub stop_loss: i64,
    pub take_profit: i64,
    pub entry_time: TimeOfDay,
    pub quantity: u64,
    pub tp_order_no: Option<String>,
    pub tp_krx_orgno: Option<String>,
    pub tp_limit_price: Option<i64>,
    pub reached_1r: bool,
    pub best_price: i64,
    pub original_sl: i64,
    pub sl_triggered_tick: bool,
    pub intended_entry_price: i64,
    pub order_to_fill_ms: i64,
    pub signal_id: String,
}

/// A closed trade.
#[derive(Debug, Clone, Copy, PartialEq, Eq, Structural)]
pub struct TradeResult {
    pub side: PositionSide,
    pub entry_price: i64,
    pub exit_price: i64,
    pub stop_loss: i64,
    pub take_profit: i64,
    pub entry_time: TimeOfDay,
    pub exit_time: TimeOfDay,
    pub exit_reason: ExitReason,
    pub quantity: u64,
    pub intended_entry_price: i64,
    pub order_to_fill_ms: i64,
}

/// One candle.  `day` counts days from 1 January of year 1, which is day 1.
#[derive(Debug, Clone, Copy, PartialEq, Eq, Structural)]
pub struct MinuteCandle {
    pub day: i32,
    pub time: TimeOfDay,
    pub open: i64,
    pub high: i64,
    pub low: i64,
    pub close: i64,
    pub volume: u64,
}

/// A fill that the broker reported: average price and quantity.
#[derive(Debug, Clone, Copy, PartialEq, Eq, Structural)]
pub struct Fill {
    pub price: i64,
    pub qty: u64,
}

/// What a balance enquiry about one stock came back with.
#[derive(Debug, Clone, Copy, PartialEq, Eq, Structural)]
pub enum HoldingReply {
    /// The enquiry itself failed: nothing is known about the holdings.
    Failed,
    /// The account holds none of the stock.
    Nothing,
    /// The account holds `qty`; the average purchase price may be missing.
    Held { qty: u64, avg: Option<i64> },
}

/// A position as the database keeps it, so that a restart can pick it up.
#[derive(Debug, Clone)]
pub struct ActivePosition {
    pub stock_code: String,
    pub side: String,
    pub entry_price: i64,
    pub stop_loss: i64,
    pub take_profit: i64,
    pub quantity: i64,
    pub tp_order_no: String,
    pub tp_krx_orgno: String,
    pub entry_time: LocalDateTime,
    pub original_sl: i64,
    pub reached_1r: bool,
    pub best_price: i64,
    pub or_high: Option<i64>,
    pub or_low: Option<i64>,
    pub or_stage: Option<String>,
    pub or_source: Option<String>,
    pub trigger_price: Option<i64>,
    pub original_risk: Option<i64>,
    pub signal_id: Option<String>,
    pub entry_mode: Option<String>,
    pub manual_intervention_required: bool,
    pub execution_state: String,
    pub last_exit_order_no: String,
    pub last_exit_reason: String,
    pub pending_entry_order_no: String,
    pub pending_entry_krx_orgno: String,
}

impl PositionSide {
    /// The name under which a side is stored.
    pub open spec fn name(self) -> Seq<char> {
        match self {
            PositionSide::Long => "Long"@,
            PositionSide::Short => "Short"@,
        }
    }

    /// The name under which a side is stored.
    pub fn label(self) -> (r: &'static str)
        ensures
            r@ == self.name(),
    {
        match self {
            PositionSide::Long => "Long",
            PositionSide::Short => "Short",
        }
    }

    /// The order that opens a position of this side.
    pub open spec fn opening(self) -> OrderSide {
        match self {
            PositionSide::Long => OrderSide::Buy,
            PositionSide::Short => OrderSide::Sell,
        }
    }

    /// The order that opens a position of this side.
    pub fn opening_order(self) -> (r: OrderSide)
        ensures
            r == self.opening(),
    {
        match self {
            PositionSide::Long => OrderSide::Buy,
            PositionSide::Short => OrderSide::Sell,
        }
    }

    /// The order that closes a position of this side: the opposite of the one that opens it.
    pub fn closing_order(self) -> (r: OrderSide)
        ensures
            r != self.opening(),
    {
        match self {
            PositionSide::Long => OrderSide::Sell,
            PositionSide::Short => OrderSide::Buy,
        }
    }
}

impl HoldingReply {
    /// The quantity that the reply establishes, if it establishes one.
    pub open spec fn quantity(self) -> Option<u64> {
        match self {
            HoldingReply::Failed => None,
            HoldingReply::Nothing => Some(0),
            HoldingReply::Held { qty, .. } => Some(qty),
        }
    }

    /// The quantity that the reply establishes, if it establishes one.
    pub fn qty(self) -> (r: Option<u64>)
        ensures
            r == self.quantity(),
    {
        match self {
            HoldingReply::Failed => None,
            HoldingReply::Nothing => Some(0),
            HoldingReply::Held { qty, .. } => Some(qty),
        }
    }
}

impl Position {
    /// The trade that closing this position at `exit_price` makes.
    pub open spec fn trade(
        self,
        exit_price: i64,
        exit_time: TimeOfDay,
        exit_reason: ExitReason,
    ) -> TradeResult {
        TradeResult {
            side: self.side,
            entry_price: self.entry_price,
            exit_price,
            stop_loss: self.stop_loss,
            take_profit: self.take_profit,
            entry_time: self.entry_time,
            exit_time,
            exit_reason,
            quantity: self.quantity,
            intended_entry_price: self.intended_entry_price,
            order_to_fill_ms: self.order_to_fill_ms,
        }
    }

    /// The trade that closing this position at `exit_price` makes.
    pub fn closed(&self, exit_price: i64, exit_time: TimeOfDay, exit_reason: ExitReason) -> (r:
        TradeResult)
        ensures
            r == self.trade(exit_price, exit_time, exit_reason),
    {
        TradeResult {
            side: self.side,
            entry_price: self.entry_price,
            exit_price,
            stop_loss: self.stop_loss,
            take_profit: self.take_profit,
            entry_time: self.entry_time,
            exit_time,
            exit_reason,
            quantity: self.quantity,
            intended_entry_price: self.intended_entry_price,
            order_to_fill_ms: self.order_to_fill_ms,
        }
    }
}

/// A balance tells a quantity exactly where it was read: none where the account holds none of the
/// stock, and what it shows where it holds some.
pub proof fn balances_tell_what_they_show(reply: HoldingReply, qty: u64, avg: Option<i64>)
    ensures
        HoldingReply::Failed.quantity() is None,
        HoldingReply::Nothing.quantity() == Some(0u64),
        (HoldingReply::Held { qty, avg }).quantity() == Some(qty),
        reply.quantity() is None ==> reply == HoldingReply::Failed,
{
}

/// Who goes long buys first, who goes short sells first, and each is stored under its own name.
pub proof fn sides_are_opened_by_their_orders(side: PositionSide)
    ensures
        side.opening() is Buy <==> side == PositionSide::Long,
        side.opening() is Sell <==> side == PositionSide::Short,
        side == PositionSide::Long ==> side.name() == "Long"@,
        side == PositionSide::Short ==> side.name() == "Short"@,
{
}

/// A closed trade tells what the position was, and what it was closed at, when and why.
pub proof fn trades_tell_the_position(p: Position, price: i64, time: TimeOfDay, why: ExitReason)
    ensures
        ({
            let t = p.trade(price, time, why);
            &&& t.exit_price == price && t.exit_time == time && t.exit_reason == why
            &&& t.side == p.side && t.quantity == p.quantity
            &&& t.entry_price == p.entry_price && t.entry_time == p.entry_time
            &&& t.stop_loss == p.stop_loss && t.take_profit == p.take_profit
            &&& t.intended_entry_price == p.intended_entry_price
            &&& t.order_to_fill_ms == p.order_to_fill_ms
        }),
{
}

} // verus!
