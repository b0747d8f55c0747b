//! What is stored of a closed trade.

use crate::types::{ExitReason, PositionSide, TradeResult};
use vstd::prelude::*;

verus! {

/// The figures of a trade that are worked out when it is stored.
#[derive(Debug, Clone, Copy, PartialEq, Eq, Structural)]
pub struct TradeFigures {
    pub quantity: i64,
    /// How much dearer the entry was than intended.
    pub entry_slippage: i64,
    /// How much worse than its stop a stopped position was closed.
    pub exit_slippage: i64,
}

/// The position was stopped.
pub open spec fn stopped(reason: ExitReason) -> bool {
    reason is StopLoss || reason is BreakevenStop || reason is TrailingStop
}

/// How much worse than its stop a position was closed.  Only a stop has a price that was intended.
pub open spec fn exit_slip(t: TradeResult) -> int {
    if stopped(t.exit_reason) {
        match t.side {
            PositionSide::Long => t.stop_loss - t.exit_price,
            PositionSide::Short => t.exit_price - t.stop_loss,
        }
    } else {
        0
    }
}

/// The figures of a trade.  A trade that does not say how much was traded is stored with the
/// quantity that the runner is set to.
pub fn trade_figures(t: &TradeResult, default_quantity: u64) -> (r: TradeFigures)
    requires
        i64::MIN <= t.entry_price - t.intended_entry_price <= i64::MAX,
        i64::MIN <= exit_slip(*t) <= i64::MAX,
    ensures
        r.quantity == (if t.quantity > 0 {
            t.quantity
        } else {
            default_quantity
        }) as i64,
        r.entry_slippage == t.entry_price - t.intended_entry_price,
        r.exit_slippage == exit_slip(*t),
{
    let quantity: u64 = if t.quantity > 0 {
        t.quantity
    } else {
        default_quantity
    };
    let is_stop: bool = matches!(
        t.exit_reason,
        ExitReason::StopLoss | ExitReason::BreakevenStop | ExitReason::TrailingStop
    );
    let exit_slippage: i64 = if is_stop {
        match t.side {
            PositionSide::Long => t.stop_loss - t.exit_price,
            PositionSide::Short => t.exit_price - t.stop_loss,
        }
    } else {
        0
    };
    TradeFigures {
        quantity: quantity as i64,
        entry_slippage: t.entry_price - t.intended_entry_price,
        exit_slippage,
    }
}

/// The name of the kind of account that was traded on.
pub fn environment_label(real_mode: bool) -> (r: &'static str)
    ensures
        r@ == (if real_mode {
            "real"@
        } else {
            "paper"@
        }),
{
    if real_mode {
        "real"
    } else {
        "paper"
    }
}

/// A stopped position that was closed worse than its stop has slipped by as much as it lost more;
/// whatever ended without a stop has not slipped.
pub proof fn only_stops_slip(t: TradeResult)
    ensures
        ({
            let by_stop = t.exit_reason == ExitReason::StopLoss || t.exit_reason
                == ExitReason::BreakevenStop || t.exit_reason == ExitReason::TrailingStop;
            &&& !by_stop ==> exit_slip(t) == 0
            &&& by_stop && t.side is Long ==> t.exit_price + exit_slip(t) == t.stop_loss
            &&& by_stop && t.side is Short ==> t.stop_loss + exit_slip(t) == t.exit_price
        }),
{
}

} // verus!
