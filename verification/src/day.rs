//! The course of a trading day.

use crate::clock::{truncated, TimeOfDay, NANOS_PER_SEC};
use crate::double::DoubleBits;
use crate::execution_state::ExecutionState;
use crate::runner_state::{stop_action, MainLoopStopAction, RunnerPhase, RunnerState};
use crate::types::PositionSide;
use vstd::prelude::*;

verus! {

/// Within this many seconds of the open, a position left over from the day before is closed.
pub const LEFTOVER_WINDOW_SECS: i64 = 300;

/// The end of the first stage of the opening range, in seconds since midnight.
pub const FIRST_RANGE_END: u32 = 32_700;

/// What a day goes by.
#[derive(Debug, Clone, Copy, PartialEq, Eq, Structural)]
pub struct DayRules {
    pub or_start: TimeOfDay,
    /// From this time on nothing is entered.
    pub entry_cutoff: TimeOfDay,
    /// At this time every position is closed.
    pub force_exit: TimeOfDay,
    pub max_trades: usize,
    /// A day's result as bad as this ends the day.
    pub max_loss: DoubleBits,
    pub real_mode: bool,
}

/// How a day ended.
#[derive(Debug, Clone, Copy, PartialEq, Eq, Structural)]
pub enum DayEnd {
    /// Before it began.
    Early,
    /// A leftover position could not be closed: a person has to look.
    LeftoverManual,
    /// In the course of the day.
    Over,
}

/// Where a day stands.
#[derive(Debug, Clone, Copy, PartialEq, Eq, Structural)]
pub enum DayStage {
    /// Pick up what was saved.
    Restore,
    /// Wait for the open.
    AwaitOpen,
    /// Close what was left over.
    CloseLeftover,
    /// Wait for the first stage of the opening range to end.
    AwaitRange,
    /// Read what was traded today already.
    LoadToday,
    /// Look around.
    Look,
    /// Look after the position.
    Manage,
    PauseManaging,
    /// Look for an entry.
    Search,
    PauseSearching,
    /// Close the position, and end.
    CloseAndEnd,
    /// Save the position's levels, and end.
    SaveAndEnd,
    Done(DayEnd),
}

/// What a day waits for.
#[derive(Debug, Clone, Copy, PartialEq, Eq, Structural)]
pub enum DayReply {
    /// Done.
    Ack,
    Opened { stopped: bool, now: TimeOfDay, has_position: bool },
    LeftoverClosed { ok: bool },
    RangeOver { stopped: bool },
    /// The trades of today; the side of the last one, if it won.
    Today { trades: usize, winner: Option<PositionSide> },
    Around { stopped: bool, manual: bool, has_position: bool, halted: bool, now: TimeOfDay },
    /// The position was closed: its side, its result, and the day's.
    Closed { side: PositionSide, pnl: DoubleBits, total: DoubleBits },
    /// The position stays, or could not be looked after.
    Kept,
}

/// A trading day.
#[derive(Debug, Clone, Copy, PartialEq, Eq, Structural)]
pub struct DayRun {
    pub rules: DayRules,
    pub stage: DayStage,
    pub trades: usize,
    /// The side of the last trade, if it won: only that side is entered.
    pub confirmed_side: Option<PositionSide>,
}

/// Right after the open.
pub open spec fn right_after_open(or_start: TimeOfDay, now: TimeOfDay) -> bool {
    0 <= truncated(now.since_midnight() - or_start.since_midnight(), NANOS_PER_SEC as int)
        <= LEFTOVER_WINDOW_SECS
}

/// A result above zero.
pub open spec fn won(pnl: DoubleBits) -> bool {
    pnl.greater(DoubleBits { bits: 0 })
}

impl DayRun {
    /// Whether a reply is the one that is waited for.
    pub open spec fn awaits(self, reply: DayReply) -> bool {
        match self.stage {
            DayStage::Restore => reply is Ack,
            DayStage::AwaitOpen => reply matches DayReply::Opened { now, .. } && now.valid()
                && self.rules.or_start.valid(),
            DayStage::CloseLeftover => reply is LeftoverClosed,
            DayStage::AwaitRange => reply is RangeOver,
            DayStage::LoadToday => reply is Today,
            DayStage::Look => reply is Around,
            DayStage::Manage => reply is Kept || (reply is Closed && self.trades < usize::MAX),
            DayStage::PauseManaging | DayStage::Search | DayStage::PauseSearching
            | DayStage::CloseAndEnd | DayStage::SaveAndEnd => reply is Ack,
            DayStage::Done(_) => false,
        }
    }

    /// At another stage.
    pub open spec fn at(self, stage: DayStage) -> DayRun {
        DayRun { stage, ..self }
    }

    /// What looking around leads to.
    pub open spec fn around(
        self,
        stopped: bool,
        manual: bool,
        has_position: bool,
        halted: bool,
        now: TimeOfDay,
    ) -> DayStage {
        if stopped && manual {
            DayStage::SaveAndEnd
        } else if stopped || !now.earlier(self.rules.force_exit) {
            if has_position {
                DayStage::CloseAndEnd
            } else {
                DayStage::Done(DayEnd::Over)
            }
        } else if has_position {
            DayStage::Manage
        } else if !now.earlier(self.rules.entry_cutoff) {
            DayStage::Done(DayEnd::Over)
        } else if halted {
            DayStage::PauseSearching
        } else {
            DayStage::Search
        }
    }

    /// The day after a trade.
    pub open spec fn traded(self, side: PositionSide, pnl: DoubleBits, total: DoubleBits) -> DayRun {
        let trades = (self.trades + 1) as usize;
        if trades >= self.rules.max_trades || total.no_greater(self.rules.max_loss) {
            DayRun { trades, stage: DayStage::Done(DayEnd::Over), ..self }
        } else {
            DayRun {
                trades,
                confirmed_side: if won(pnl) {
                    Some(side)
                } else {
                    None
                },
                stage: DayStage::PauseManaging,
                ..self
            }
        }
    }

    /// What a reply leads to.
    pub open spec fn next(self, reply: DayReply) -> DayRun {
        match reply {
            DayReply::Ack => self.at(
                match self.stage {
                    DayStage::Restore => DayStage::AwaitOpen,
                    DayStage::Search => DayStage::PauseSearching,
                    DayStage::PauseManaging | DayStage::PauseSearching => DayStage::Look,
                    _ => DayStage::Done(DayEnd::Over),
                },
            ),
            DayReply::Opened { stopped, now, has_position } => self.at(
                if stopped {
                    DayStage::Done(DayEnd::Early)
                } else if has_position && right_after_open(self.rules.or_start, now) {
                    DayStage::CloseLeftover
                } else {
                    DayStage::AwaitRange
                },
            ),
            DayReply::LeftoverClosed { ok } => self.at(
                if !ok && self.rules.real_mode {
                    DayStage::Done(DayEnd::LeftoverManual)
                } else {
                    DayStage::AwaitRange
                },
            ),
            DayReply::RangeOver { stopped } => self.at(
                if stopped {
                    DayStage::Done(DayEnd::Early)
                } else {
                    DayStage::LoadToday
                },
            ),
            DayReply::Today { trades, winner } => DayRun {
                trades,
                confirmed_side: winner,
                stage: DayStage::Look,
                ..self
            },
            DayReply::Around { stopped, manual, has_position, halted, now } => self.at(
                self.around(stopped, manual, has_position, halted, now),
            ),
            DayReply::Closed { side, pnl, total } => self.traded(side, pnl, total),
            DayReply::Kept => self.at(DayStage::PauseManaging),
        }
    }

    /// A new day.
    pub fn begin(rules: DayRules) -> (r: DayRun)
        ensures
            r == (DayRun { rules, stage: DayStage::Restore, trades: 0, confirmed_side: None }),
    {
        DayRun { rules, stage: DayStage::Restore, trades: 0, confirmed_side: None }
    }

    fn look(
        &self,
        stopped: bool,
        manual: bool,
        has_position: bool,
        halted: bool,
        now: TimeOfDay,
    ) -> (r: DayStage)
        ensures
            r == self.around(stopped, manual, has_position, halted, now),
    {
        if stopped && manual {
            return DayStage::SaveAndEnd;
        }
        if stopped || !now.is_before(self.rules.force_exit) {
            return if has_position {
                DayStage::CloseAndEnd
            } else {
                DayStage::Done(DayEnd::Over)
            };
        }
        if has_position {
            DayStage::Manage
        } else if !now.is_before(self.rules.entry_cutoff) {
            DayStage::Done(DayEnd::Over)
        } else if halted {
            DayStage::PauseSearching
        } else {
            DayStage::Search
        }
    }

    /// Takes in what came back.
    pub fn step(&mut self, reply: DayReply)
        requires
            old(self).awaits(reply),
        ensures
            *final(self) == old(self).next(reply),
    {
        match reply {
            DayReply::Ack => {
                self.stage =
                match self.stage {
                    DayStage::Restore => DayStage::AwaitOpen,
                    DayStage::Search => DayStage::PauseSearching,
                    DayStage::PauseManaging | DayStage::PauseSearching => DayStage::Look,
                    _ => DayStage::Done(DayEnd::Over),
                };
            },
            DayReply::Opened { stopped, now, has_position } => {
                let elapsed: i64 = now.seconds_since(self.rules.or_start);
                self.stage =
                if stopped {
                    DayStage::Done(DayEnd::Early)
                } else if has_position && 0 <= elapsed && elapsed <= LEFTOVER_WINDOW_SECS {
                    DayStage::CloseLeftover
                } else {
                    DayStage::AwaitRange
                };
            },
            DayReply::LeftoverClosed { ok } => {
                self.stage =
                if !ok && self.rules.real_mode {
                    DayStage::Done(DayEnd::LeftoverManual)
                } else {
                    DayStage::AwaitRange
                };
            },
            DayReply::RangeOver { stopped } => {
                self.stage =
                if stopped {
                    DayStage::Done(DayEnd::Early)
                } else {
                    DayStage::LoadToday
                };
            },
            DayReply::Today { trades, winner } => {
                self.trades = trades;
                self.confirmed_side = winner;
                self.stage = DayStage::Look;
            },
            DayReply::Around { stopped, manual, has_position, halted, now } => {
                self.stage = self.look(stopped, manual, has_position, halted, now);
            },
            DayReply::Closed { side, pnl, total } => {
                self.trades = self.trades + 1;
                if self.trades >= self.rules.max_trades || total.at_most(self.rules.max_loss) {
                    self.stage = DayStage::Done(DayEnd::Over);
                } else {
                    self.confirmed_side =
                    if pnl.exceeds(DoubleBits { bits: 0 }) {
                        Some(side)
                    } else {
                        None
                    };
                    self.stage = DayStage::PauseManaging;
                }
            },
            DayReply::Kept => {
                self.stage = DayStage::PauseManaging;
            },
        }
    }
}

/// The side of the last trade of today, if it won.
pub fn last_winner(side: &str, pnl: DoubleBits) -> (r: Option<PositionSide>)
    ensures
        r == (if !won(pnl) {
            None
        } else if side@ == "Long"@ {
            Some(PositionSide::Long)
        } else if side@ == "Short"@ {
            Some(PositionSide::Short)
        } else {
            None
        }),
{
    if !pnl.exceeds(DoubleBits { bits: 0 }) {
        None
    } else if crate::text::same_text(side, "Long") {
        Some(PositionSide::Long)
    } else if crate::text::same_text(side, "Short") {
        Some(PositionSide::Short)
    } else {
        None
    }
}

impl RunnerState {
    /// Drops a leftover position of a paper account that could not be closed.
    pub fn discard_position(&mut self, now_ms: u64)
        ensures
            *final(self) == (RunnerState {
                current_position: None,
                exit_pending: false,
                phase: RunnerPhase::Searching,
                execution_state: ExecutionState::Flat,
                last_flat_transition_ms: if old(self).execution_state is Flat {
                    old(self).last_flat_transition_ms
                } else {
                    Some(now_ms)
                },
                ..*old(self)
            }),
    {
        self.settle_flat();
        let _ = self.transition_execution_state(ExecutionState::Flat, now_ms);
    }

    /// The day is over.  What a person has to see stays on display.
    pub fn end_day(&mut self)
        ensures
            *final(self) == (RunnerState {
                phase: if old(self).manual_intervention_required {
                    old(self).phase
                } else {
                    RunnerPhase::Finished
                },
                ..*old(self)
            }),
    {
        if !self.manual_intervention_required {
            self.phase = RunnerPhase::Finished;
        }
    }
}

/// The day after a number of replies.
pub open spec fn day_run(day: DayRun, replies: Seq<DayReply>) -> DayRun
    decreases replies.len(),
{
    if replies.len() == 0 {
        day
    } else {
        day_run(day, replies.drop_last()).next(replies.last())
    }
}

/// Each reply came when it was waited for.
pub open spec fn day_followed(day: DayRun, replies: Seq<DayReply>) -> bool
    decreases replies.len(),
{
    replies.len() == 0 || (day_followed(day, replies.drop_last()) && day_run(
        day,
        replies.drop_last(),
    ).awaits(replies.last()))
}

/// How many trades were closed.
pub open spec fn closed_trades(replies: Seq<DayReply>) -> int
    decreases replies.len(),
{
    if replies.len() == 0 {
        0
    } else {
        closed_trades(replies.drop_last()) + (if replies.last() is Closed {
            1int
        } else {
            0
        })
    }
}

/// A day does not go on after as many trades as are allowed: whenever it looks for an entry after
/// a trade, fewer were made.
pub proof fn trade_limit_ends_the_day(rules: DayRules, replies: Seq<DayReply>)
    requires
        day_followed(
            DayRun { rules, stage: DayStage::Restore, trades: 0, confirmed_side: None },
            replies,
        ),
    ensures
        ({
            let day = day_run(
                DayRun { rules, stage: DayStage::Restore, trades: 0, confirmed_side: None },
                replies,
            );
            &&& day.rules == rules
            &&& closed_trades(replies) > 0 && !(day.stage is Done) && !(day.stage is CloseAndEnd)
                && !(day.stage is SaveAndEnd) ==> day.trades < rules.max_trades
            &&& closed_trades(replies) > 0 ==> day.stage is Look || day.stage is Manage
                || day.stage is PauseManaging || day.stage is Search || day.stage is PauseSearching
                || day.stage is CloseAndEnd || day.stage is SaveAndEnd || day.stage is Done
        }),
    decreases replies.len(),
{
    if replies.len() > 0 {
        trade_limit_ends_the_day(rules, replies.drop_last());
    }
}

/// A stopped runner that was handed over to a person neither closes its position nor looks for an
/// entry; and nothing is looked for after the cutoff, at the end of the day, or while a position
/// is held.
pub proof fn searching_has_its_time(
    day: DayRun,
    stopped: bool,
    manual: bool,
    has_position: bool,
    halted: bool,
    now: TimeOfDay,
)
    requires
        day.stage is Look,
    ensures
        ({
            let stage = day.next(
                DayReply::Around { stopped, manual, has_position, halted, now },
            ).stage;
            &&& stopped && manual ==> stage is SaveAndEnd
            &&& stage is CloseAndEnd ==> has_position && !(stopped && manual)
            &&& stage is Search ==> !stopped && !has_position && !halted && now.earlier(
                day.rules.entry_cutoff,
            ) && now.earlier(day.rules.force_exit)
            &&& !stopped && has_position && !now.earlier(day.rules.force_exit) ==> stage
                is CloseAndEnd
        }),
{
}

/// A runner that was asked to stop does what a stop calls for, whatever the time is: it leaves a
/// position to the person who has it, closes its own, or just ends.
pub proof fn a_stop_is_obeyed(day: DayRun, state: RunnerState, halted: bool, now: TimeOfDay)
    ensures
        day.around(
            true,
            state.manual_intervention_required,
            state.current_position is Some,
            halted,
            now,
        ) == (match stop_action(state) {
            MainLoopStopAction::SkipForManual { .. } => DayStage::SaveAndEnd,
            MainLoopStopAction::CloseAndExit { has_position } => if has_position {
                DayStage::CloseAndEnd
            } else {
                DayStage::Done(DayEnd::Over)
            },
        }),
{
}

/// A time is up to another one.
pub open spec fn time_reached(now: TimeOfDay, at: TimeOfDay) -> bool {
    now.secs > at.secs || (now.secs == at.secs && now.nanos >= at.nanos)
}

/// What a look around leads to, of all that it can see.  A stopped runner or the end of the day
/// closes a position, unless a person has it and the runner was stopped; a position is looked
/// after; without one, an entry is looked for until the cutoff, but not while trading is halted.
pub proof fn looks_lead_to_one_thing(
    day: DayRun,
    stopped: bool,
    manual: bool,
    has_position: bool,
    halted: bool,
    now: TimeOfDay,
)
    requires
        day.stage is Look,
    ensures
        ({
            let next = day.next(DayReply::Around { stopped, manual, has_position, halted, now });
            let over = stopped || time_reached(now, day.rules.force_exit);
            let late = time_reached(now, day.rules.entry_cutoff);
            &&& next.stage is SaveAndEnd <==> stopped && manual
            &&& next.stage is CloseAndEnd <==> over && has_position && !(stopped && manual)
            &&& next.stage is Manage <==> !over && has_position
            &&& next.stage is Search <==> !over && !has_position && !late && !halted
            &&& next.stage is PauseSearching <==> !over && !has_position && !late && halted
            &&& next.stage == DayStage::Done(DayEnd::Over) <==> !has_position && (over || late) && !(
            stopped && manual)
            &&& next.trades == day.trades
            &&& next.confirmed_side == day.confirmed_side
            &&& next.rules == day.rules
        }),
{
}

/// A trade is counted; the day ends with it where the limit of trades is reached or the day's
/// result is as bad as allowed, and else goes on, on the side of a winner alone.
pub proof fn trades_are_counted(
    day: DayRun,
    side: PositionSide,
    pnl: DoubleBits,
    total: DoubleBits,
)
    requires
        day.stage is Manage,
        day.trades < usize::MAX,
    ensures
        ({
            let next = day.next(DayReply::Closed { side, pnl, total });
            let spent = day.trades + 1 >= day.rules.max_trades || total.no_greater(
                day.rules.max_loss,
            );
            &&& next.trades == day.trades + 1
            &&& spent <==> next.stage == DayStage::Done(DayEnd::Over)
            &&& !spent ==> next.stage is PauseManaging && next.confirmed_side == (if pnl.greater(
                DoubleBits { bits: 0 },
            ) {
                Some(side)
            } else {
                None
            })
        }),
{
}

/// A day begins in this order: what was saved is picked up, the open is awaited, what was left over
/// is closed where the open was at most five minutes ago, the first range is awaited, what was
/// traded today is read.  A leftover that cannot be closed ends the day of a real account.
pub proof fn days_begin_in_order(
    day: DayRun,
    stopped: bool,
    now: TimeOfDay,
    has_position: bool,
    trades: usize,
    winner: Option<PositionSide>,
)
    ensures
        day.stage is Restore ==> day.next(DayReply::Ack).stage is AwaitOpen,
        day.stage is AwaitOpen && day.rules.or_start.nanos == 0 && now.nanos == 0 ==> {
            let stage = day.next(DayReply::Opened { stopped, now, has_position }).stage;
            let since = now.secs - day.rules.or_start.secs;
            &&& stage == DayStage::Done(DayEnd::Early) <==> stopped
            &&& stage is CloseLeftover <==> !stopped && has_position && 0 <= since <= 300
            &&& stage is AwaitRange <==> !stopped && !(has_position && 0 <= since <= 300)
        },
        day.stage is CloseLeftover ==> {
            &&& day.next(DayReply::LeftoverClosed { ok: true }).stage is AwaitRange
            &&& day.rules.real_mode ==> day.next(DayReply::LeftoverClosed { ok: false }).stage
                == DayStage::Done(DayEnd::LeftoverManual)
            &&& !day.rules.real_mode ==> day.next(DayReply::LeftoverClosed { ok: false }).stage
                is AwaitRange
        },
        day.stage is AwaitRange ==> day.next(DayReply::RangeOver { stopped }).stage == (if stopped {
            DayStage::Done(DayEnd::Early)
        } else {
            DayStage::LoadToday
        }),
        day.stage is LoadToday ==> {
            let next = day.next(DayReply::Today { trades, winner });
            next.stage is Look && next.trades == trades && next.confirmed_side == winner
        },
{
}

/// A day goes round: after each search and each look at the position there is a pause, and after
/// each pause a look around; after closing or saving at the end, it ends.
pub proof fn days_go_round(day: DayRun)
    ensures
        day.stage is Search ==> day.next(DayReply::Ack).stage is PauseSearching,
        day.stage is Manage ==> day.next(DayReply::Kept).stage is PauseManaging,
        day.stage is PauseSearching || day.stage is PauseManaging ==> day.next(DayReply::Ack).stage
            is Look,
        day.stage is CloseAndEnd || day.stage is SaveAndEnd ==> day.next(DayReply::Ack).stage
            == DayStage::Done(DayEnd::Over),
        day.next(DayReply::Ack).trades == day.trades,
        day.next(DayReply::Kept).trades == day.trades,
        day.next(DayReply::Ack).confirmed_side == day.confirmed_side,
        day.next(DayReply::Kept).confirmed_side == day.confirmed_side,
{
}

} // verus!
