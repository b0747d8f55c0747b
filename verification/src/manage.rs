//! Looking after an open position.

use crate::clock::TimeOfDay;
use crate::runner_state::{should_skip_auto_close_for_manual, RunnerState};
use crate::trailing::{
    is_sl_hit, is_tp_hit, level_fits, seen, stop_hit, target_hit, TrailingUpdate,
};
use crate::types::{ExitReason, Position};
use vstd::prelude::*;

verus! {

/// What comes before the price is even looked at.
#[derive(Debug, Clone, Copy)]
pub enum ManageStart {
    /// A person has to look: nothing is closed, and the position's levels are saved.
    SkipForManual { levels: Option<(i64, bool, i64)> },
    /// The runner was stopped: close the position.
    CloseNow,
    /// An exit is under way.
    Skip,
    /// Go on with the current price.
    NeedPrice,
}

/// What comes before the price is even looked at.
pub open spec fn first_move(state: RunnerState, stopped: bool) -> ManageStart {
    if stopped && state.manual_intervention_required {
        ManageStart::SkipForManual {
            levels: match state.current_position {
                Some(pos) => Some((pos.stop_loss, pos.reached_1r, pos.best_price)),
                None => None,
            },
        }
    } else if stopped {
        ManageStart::CloseNow
    } else if state.exit_pending {
        ManageStart::Skip
    } else {
        ManageStart::NeedPrice
    }
}

/// What comes before the price is even looked at.
pub fn manage_start(state: &RunnerState, stopped: bool) -> (r: ManageStart)
    ensures
        r == first_move(*state, stopped),
{
    if stopped {
        if should_skip_auto_close_for_manual(state) {
            return ManageStart::SkipForManual { levels: state.levels_to_save() };
        }
        return ManageStart::CloseNow;
    }
    if state.exit_pending {
        ManageStart::Skip
    } else {
        ManageStart::NeedPrice
    }
}

/// What the current price calls for.
#[derive(Debug, Clone, Copy, PartialEq, Eq, Structural)]
pub enum ManageAction {
    Nothing,
    /// The price stands at the target: ask what became of the take-profit order.
    QueryTakeProfit { expected_qty: u64, tp_price: i64 },
    /// The price stands at the target, and no order stands there: close.
    CloseTakeProfit,
    /// The stop was hit: close.  The levels tell which kind of stop it was.
    CloseStopped { stop_loss: i64, original_sl: i64, entry_price: i64, reached_1r: bool },
    /// Too long without earning enough: close.
    CloseTimeStop,
}

impl ManageAction {
    /// The reason under which the position is closed.  `stop_reason` is the name of the stop that
    /// was hit.
    pub open spec fn reason_with(self, stop_reason: ExitReason) -> Option<ExitReason> {
        match self {
            ManageAction::CloseTakeProfit => Some(ExitReason::TakeProfit),
            ManageAction::CloseStopped { .. } => Some(stop_reason),
            ManageAction::CloseTimeStop => Some(ExitReason::TimeStop),
            _ => None,
        }
    }

    /// The reason under which the position is closed.
    pub fn close_reason(self, stop_reason: ExitReason) -> (r: Option<ExitReason>)
        ensures
            r == self.reason_with(stop_reason),
    {
        match self {
            ManageAction::CloseTakeProfit => Some(ExitReason::TakeProfit),
            ManageAction::CloseStopped { .. } => Some(stop_reason),
            ManageAction::CloseTimeStop => Some(ExitReason::TimeStop),
            _ => None,
        }
    }
}

/// A position that has not earned enough for so long is closed.
pub open spec fn overdue(
    entry_time: TimeOfDay,
    now: TimeOfDay,
    limit_minutes: i64,
    reached_1r: bool,
) -> bool {
    !reached_1r && now.minutes_from(entry_time) >= limit_minutes
}

/// Whether a position has not earned enough for too long.
pub fn time_stop_breached_by_minutes(
    entry_time: TimeOfDay,
    now: TimeOfDay,
    limit_minutes: i64,
    reached_1r: bool,
) -> (r: bool)
    requires
        entry_time.valid(),
        now.valid(),
    ensures
        r == overdue(entry_time, now, limit_minutes, reached_1r),
{
    let minutes: i64 = now.minutes_since(entry_time);
    !reached_1r && minutes >= limit_minutes
}

impl Position {
    /// What a price calls for, once the levels have followed it.
    pub open spec fn action_at(
        self,
        followed: Position,
        price: i64,
        now: TimeOfDay,
        limit_minutes: i64,
    ) -> ManageAction {
        if target_hit(self.side, self.take_profit, price) {
            if self.tp_order_no is Some {
                ManageAction::QueryTakeProfit {
                    expected_qty: self.quantity,
                    tp_price: self.take_profit,
                }
            } else {
                ManageAction::CloseTakeProfit
            }
        } else if followed.sl_triggered_tick || stop_hit(
            followed.side,
            followed.stop_loss,
            price,
        ) {
            ManageAction::CloseStopped {
                stop_loss: followed.stop_loss,
                original_sl: followed.original_sl,
                entry_price: followed.entry_price,
                reached_1r: followed.reached_1r,
            }
        } else if overdue(followed.entry_time, now, limit_minutes, followed.reached_1r) {
            ManageAction::CloseTimeStop
        } else {
            ManageAction::Nothing
        }
    }

    /// Takes in the current price.  At the target nothing else is looked at, and the levels stay
    /// as they are; else they follow the price, and the stop and the time are checked.
    pub fn manage(
        &mut self,
        price: i64,
        breakeven: i64,
        distance: i64,
        now: TimeOfDay,
        limit_minutes: i64,
    ) -> (r: (ManageAction, TrailingUpdate))
        requires
            old(self).trail().computable(old(self).side, old(self).entry_price, distance, price),
            old(self).entry_time.valid(),
            now.valid(),
        ensures
            ({
                let followed = old(self).with_trail(
                    old(self).trail().after(
                        old(self).side,
                        old(self).entry_price,
                        breakeven,
                        distance,
                        price,
                    ),
                );
                let at_target = target_hit(old(self).side, old(self).take_profit, price);
                &&& *final(self) == (if at_target {
                    *old(self)
                } else {
                    followed
                })
                &&& r.0 == old(self).action_at(followed, price, now, limit_minutes)
                &&& r.1.reached_1r_newly == (!at_target && followed.reached_1r && !old(
                    self).reached_1r)
                &&& r.1.trailing_changed == (!at_target && followed.stop_loss != old(
                    self).trail().stop_before(
                    old(self).side,
                    old(self).entry_price,
                    breakeven,
                    price,
                ))
            }),
    {
        let nothing = TrailingUpdate { reached_1r_newly: false, trailing_changed: false };
        if is_tp_hit(self.side, self.take_profit, price) {
            if self.tp_order_no.is_some() {
                let action = ManageAction::QueryTakeProfit {
                    expected_qty: self.quantity,
                    tp_price: self.take_profit,
                };
                return (action, nothing);
            }
            return (ManageAction::CloseTakeProfit, nothing);
        }
        let update: TrailingUpdate = self.follow(breakeven, distance, price);
        if self.sl_triggered_tick || is_sl_hit(self.side, self.stop_loss, price) {
            let action = ManageAction::CloseStopped {
                stop_loss: self.stop_loss,
                original_sl: self.original_sl,
                entry_price: self.entry_price,
                reached_1r: self.reached_1r,
            };
            return (action, update);
        }
        if time_stop_breached_by_minutes(self.entry_time, now, limit_minutes, self.reached_1r) {
            return (ManageAction::CloseTimeStop, update);
        }
        (ManageAction::Nothing, update)
    }
}

/// A stopped runner leaves a position alone that was handed over to a person, and a runner that
/// is closing its position sends no second order: both hold whatever the rest of the state is.
pub proof fn positions_under_care_are_left_alone(state: RunnerState, stopped: bool)
    ensures
        stopped && state.manual_intervention_required ==> first_move(state, stopped)
            is SkipForManual,
        !stopped && state.exit_pending ==> first_move(state, stopped) is Skip,
{
}

/// The target comes before the stop: at a price that reaches both, the position is not closed as
/// stopped.
pub proof fn target_comes_first(
    pos: Position,
    followed: Position,
    price: i64,
    now: TimeOfDay,
    limit_minutes: i64,
)
    requires
        target_hit(pos.side, pos.take_profit, price),
    ensures
        !(pos.action_at(followed, price, now, limit_minutes) is CloseStopped),
        !(pos.action_at(followed, price, now, limit_minutes) is CloseTimeStop),
        !(pos.action_at(followed, price, now, limit_minutes) is Nothing),
{
}

/// So many nanoseconds passed between two times of the same day.
pub open spec fn elapsed(from: TimeOfDay, to: TimeOfDay) -> int {
    (to.secs - from.secs) * 1_000_000_000 + (to.nanos - from.nanos)
}

/// A position is overdue exactly where it has not reached 1R and all its minutes have passed.
pub proof fn overdue_after_the_minutes(
    entry_time: TimeOfDay,
    now: TimeOfDay,
    limit_minutes: i64,
    reached_1r: bool,
)
    requires
        limit_minutes > 0,
    ensures
        overdue(entry_time, now, limit_minutes, reached_1r) <==> !reached_1r && elapsed(
            entry_time,
            now,
        ) >= limit_minutes * 60_000_000_000,
{
}

/// What a price calls for.  At the target or beyond it, the take-profit order is asked about, or
/// the position closed where there is none.  Else the stop counts, which stands where the best
/// price puts it; a stop that was hit between two looks counts as hit.  Else a position that has
/// not reached 1R is closed when its time is up.
pub proof fn price_calls_for_one_thing(
    pos: Position,
    price: i64,
    breakeven: i64,
    distance: i64,
    now: TimeOfDay,
    limit_minutes: i64,
)
    requires
        limit_minutes > 0,
        pos.reached_1r || seen(pos.side, pos.stop_loss as int) <= seen(
            pos.side,
            pos.entry_price as int,
        ),
        level_fits(pos.side, pos.best_price, distance),
        level_fits(pos.side, price, distance),
    ensures
        ({
            let followed = pos.with_trail(
                pos.trail().after(pos.side, pos.entry_price, breakeven, distance, price),
            );
            let p = seen(pos.side, price as int);
            let entry = seen(pos.side, pos.entry_price as int);
            let best = if p > seen(pos.side, pos.best_price as int) {
                p
            } else {
                seen(pos.side, pos.best_price as int)
            };
            let earned = pos.reached_1r || best - entry >= breakeven;
            let floor = if pos.reached_1r || !earned {
                seen(pos.side, pos.stop_loss as int)
            } else {
                entry
            };
            let stop = if earned && best - distance > floor {
                best - distance
            } else {
                floor
            };
            let late = elapsed(pos.entry_time, now) >= limit_minutes * 60_000_000_000;
            match pos.action_at(followed, price, now, limit_minutes) {
                ManageAction::QueryTakeProfit { expected_qty, tp_price } => {
                    &&& p >= seen(pos.side, pos.take_profit as int)
                    &&& pos.tp_order_no is Some
                    &&& expected_qty == pos.quantity
                    &&& tp_price == pos.take_profit
                },
                ManageAction::CloseTakeProfit => p >= seen(pos.side, pos.take_profit as int)
                    && pos.tp_order_no is None,
                ManageAction::CloseStopped { stop_loss, original_sl, entry_price, reached_1r } => {
                    &&& p < seen(pos.side, pos.take_profit as int)
                    &&& pos.sl_triggered_tick || p <= stop
                    &&& seen(pos.side, stop_loss as int) == stop
                    &&& original_sl == pos.original_sl
                    &&& entry_price == pos.entry_price
                    &&& reached_1r == earned
                },
                ManageAction::CloseTimeStop => {
                    &&& p < seen(pos.side, pos.take_profit as int)
                    &&& !pos.sl_triggered_tick && p > stop
                    &&& !earned && late
                },
                ManageAction::Nothing => {
                    &&& p < seen(pos.side, pos.take_profit as int)
                    &&& !pos.sl_triggered_tick && p > stop
                    &&& earned || !late
                },
            }
        }),
{
    overdue_after_the_minutes(pos.entry_time, now, limit_minutes, false);
}

/// A runner that was not stopped and is not closing looks at the price; one that was stopped
/// closes, unless a person has the position, and then its levels are kept.
pub proof fn first_moves_are_complete(state: RunnerState, stopped: bool)
    ensures
        first_move(state, stopped) is CloseNow <==> stopped && !state.manual_intervention_required,
        first_move(state, stopped) is NeedPrice <==> !stopped && !state.exit_pending,
        first_move(state, stopped) matches ManageStart::SkipForManual { levels } ==> levels == (
        match state.current_position {
            Some(pos) => Some((pos.stop_loss, pos.reached_1r, pos.best_price)),
            None => None,
        }),
{
}

/// Each way of closing goes under its own reason.
pub proof fn closings_have_their_reasons(action: ManageAction, stop_reason: ExitReason)
    ensures
        action is CloseTakeProfit ==> action.reason_with(stop_reason) == Some(ExitReason::TakeProfit),
        action is CloseTimeStop ==> action.reason_with(stop_reason) == Some(ExitReason::TimeStop),
        action is CloseStopped ==> action.reason_with(stop_reason) == Some(stop_reason),
        action is Nothing || action is QueryTakeProfit ==> action.reason_with(stop_reason) is None,
{
}

} // verus!
