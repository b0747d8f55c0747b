//! Entering a position with one limit order.
//!
//! The order is priced, sized and sent; then its fill is waited for.  What was not filled in time
//! is cancelled, and before the attempt is given up the balance is read, so that a fill that
//! crossed the cancellation is not overlooked.

use crate::clock::TimeOfDay;
use crate::close::SubmitReply;
use crate::exit::ExitResolutionSource;
use crate::journal::{JournalPhase, JournalReason, JournalRecord, JournalResolution};
use crate::ticks::{etf_tick_size, nearest_multiple, round_to_etf_tick, tick_of};
use crate::types::{Fill, HoldingReply, PositionSide};
use vstd::prelude::*;

verus! {

/// From 15:19:30 on, in seconds of the day, there is no time left to wait for a fill.
pub const ENTRY_LAST_CALL: u32 = 55_170;

/// At 15:20:00, in seconds of the day, waiting for a fill ends.
pub const ENTRY_DEADLINE: u32 = 55_200;

/// A fill is waited for in slices of at most this many milliseconds.
pub const NOTICE_SLICE_MS: u64 = 5_000;

/// How often saving the pending order is tried.
pub const SAVE_ATTEMPTS: u32 = 3;

/// Why an entry is not even tried.
#[derive(Debug, Clone, Copy, PartialEq, Eq, Structural)]
pub enum EntryRefusal {
    /// The day's trades are used up.
    DailyLimit,
    /// It is too late to wait for a fill.
    TooLate,
}

/// Whether an entry may be tried now.  `trades` holds the day's trades and their limit, where
/// there is one.
pub fn check_entry_allowed(trades: Option<(usize, usize)>, now: TimeOfDay) -> (r: Result<
    (),
    EntryRefusal,
>)
    ensures
        r == (if trades matches Some(t) && t.0 >= t.1 {
            Err::<(), EntryRefusal>(EntryRefusal::DailyLimit)
        } else if now.secs >= ENTRY_LAST_CALL {
            Err::<(), EntryRefusal>(EntryRefusal::TooLate)
        } else {
            Ok::<(), EntryRefusal>(())
        }),
{
    if let Some((count, max)) = trades {
        if count >= max {
            return Err(EntryRefusal::DailyLimit);
        }
    }
    if now.secs >= ENTRY_LAST_CALL {
        return Err(EntryRefusal::TooLate);
    }
    Ok(())
}

/// The price at which an order is sure to meet the market: at least one tick beyond the anchor,
/// and never below one tick.
pub open spec fn marketable(side: PositionSide, anchor: int, tick_offset: int) -> int {
    let tick = tick_of(anchor);
    let offset = (if tick_offset >= 1 {
        tick_offset
    } else {
        1
    }) * tick;
    match side {
        PositionSide::Long => anchor + offset,
        PositionSide::Short => if anchor - offset >= tick {
            anchor - offset
        } else {
            tick
        },
    }
}

/// Whether a marketable price can be computed: the anchor moved by the offset, with half a tick
/// added to round it, stays within the range of prices.
pub open spec fn marketable_in_range(side: PositionSide, anchor: int, tick_offset: int) -> bool {
    let offset = (if tick_offset >= 1 {
        tick_offset
    } else {
        1
    }) * tick_of(anchor);
    match side {
        PositionSide::Long => anchor + offset + tick_of(anchor + offset) / 2 <= i64::MAX,
        PositionSide::Short => i64::MIN <= anchor - offset,
    }
}

/// Whether a marketable price can be computed.
pub fn can_be_marketable(side: PositionSide, anchor: i64, tick_offset: u32) -> (r: bool)
    ensures
        r == marketable_in_range(side, anchor as int, tick_offset as int),
{
    let tick: i64 = etf_tick_size(anchor);
    let steps: i64 = if tick_offset >= 1 {
        tick_offset as i64
    } else {
        1
    };
    assert(1 * tick <= steps * tick <= 4_294_967_295 * tick) by (nonlinear_arith)
        requires
            1 <= steps <= 4_294_967_295,
            tick > 0,
    ;
    let offset: i64 = steps * tick;
    match side {
        PositionSide::Long => anchor <= i64::MAX - offset && anchor + offset <= i64::MAX
            - etf_tick_size(anchor + offset) / 2,
        PositionSide::Short => anchor >= i64::MIN + offset,
    }
}

/// The limit price of a marketable order: `tick_offset` ticks, but at least one, beyond the best
/// quote, rounded to the tick.
pub fn marketable_limit_price(side: PositionSide, anchor: i64, tick_offset: u32) -> (r: i64)
    requires
        marketable_in_range(side, anchor as int, tick_offset as int),
    ensures
        nearest_multiple(
            r as int,
            marketable(side, anchor as int, tick_offset as int),
            tick_of(marketable(side, anchor as int, tick_offset as int)),
        ),
{
    let tick: i64 = etf_tick_size(anchor);
    let steps: i64 = if tick_offset >= 1 {
        tick_offset as i64
    } else {
        1
    };
    assert(1 * tick <= steps * tick <= 4_294_967_295 * tick) by (nonlinear_arith)
        requires
            1 <= steps <= 4_294_967_295,
            tick > 0,
    ;
    let offset: i64 = steps * tick;
    let price: i64 = match side {
        PositionSide::Long => anchor + offset,
        PositionSide::Short => if anchor - offset >= tick {
            anchor - offset
        } else {
            tick
        },
    };
    round_to_etf_tick(price)
}

/// How far a limit price lies from the intended price, and what that distance is measured
/// against.
pub fn slippage_parts(limit_price: i64, intended: i64) -> (r: (i64, i64))
    requires
        -i64::MAX <= limit_price - intended <= i64::MAX,
    ensures
        r.0 == (if limit_price >= intended {
            limit_price - intended
        } else {
            intended - limit_price
        }),
        r.1 == (if intended >= 1 {
            intended as int
        } else {
            1
        }),
{
    let distance: i64 = if limit_price >= intended {
        limit_price - intended
    } else {
        intended - limit_price
    };
    let base: i64 = if intended >= 1 {
        intended
    } else {
        1
    };
    (distance, base)
}

/// What is known of how much can be bought.
#[derive(Debug, Clone, Copy, PartialEq, Eq, Structural)]
pub enum BuyableReply {
    /// The broker named a quantity.
    Orderable(i64),
    /// The broker could not say; so much cash may be spent.
    Cash(i64),
}

/// How much to order: one less than the broker allows, or what the cash buys at the intended
/// price.
pub open spec fn quantity_to_order(reply: BuyableReply, entry_price: i64) -> int {
    match reply {
        BuyableReply::Orderable(n) => if n > 1 {
            n - 1
        } else {
            0
        },
        BuyableReply::Cash(cash) => if cash > 0 && entry_price > 0 {
            cash as int / entry_price as int
        } else {
            0
        },
    }
}

/// How much to order.
pub fn order_quantity(reply: BuyableReply, entry_price: i64) -> (r: u64)
    ensures
        r == quantity_to_order(reply, entry_price),
{
    match reply {
        BuyableReply::Orderable(n) => if n > 1 {
            (n - 1) as u64
        } else {
            0
        },
        BuyableReply::Cash(cash) => if cash > 0 && entry_price > 0 {
            proof {
                assert(0 <= cash as int / entry_price as int <= cash as int) by (nonlinear_arith)
                    requires
                        cash > 0,
                        entry_price > 0,
                ;
            }
            (cash / entry_price) as u64
        } else {
            0
        },
    }
}

/// What the cash buys costs no more than the cash.
pub proof fn cash_is_not_overspent(cash: i64, entry_price: i64)
    requires
        entry_price > 0,
        cash >= 0,
    ensures
        quantity_to_order(BuyableReply::Cash(cash), entry_price) * entry_price <= cash,
{
    if cash > 0 {
        let q = cash as int / entry_price as int;
        assert(q * entry_price <= cash) by (nonlinear_arith)
            requires
                q == cash as int / entry_price as int,
                entry_price > 0,
        ;
    }
}

/// How an entry ended.
#[derive(Debug, Clone, Copy, PartialEq, Eq, Structural)]
pub enum EntryOutcome {
    /// The balance could not be read beforehand; no order went out.
    BalanceUnreadable,
    /// The broker could not be reached.
    SubmitFailed,
    /// The broker refused the order.
    Rejected,
    /// The order is out but could not be saved: a person has to look.
    PendingNotSaved,
    /// A position was entered.
    Filled { qty: u64, price: i64 },
    /// Nothing was filled, the balance shows it, and the order is cancelled.
    Cancelled { preempted: bool },
    /// The order is cancelled, but whether something was filled is not known: a person has to
    /// look.
    CancelUnverified,
}

/// What showed a fill after the wait was over.
#[derive(Debug, Clone, Copy, PartialEq, Eq, Structural)]
pub enum LateSource {
    /// Nothing did; the fill was known before.
    Nothing,
    Executions,
    Balance,
}

/// What is done next.
#[derive(Debug, Clone, Copy, PartialEq, Eq, Structural)]
pub enum EntryStage {
    /// Read the balance.
    HoldingBefore,
    /// Send the order.
    Submit,
    /// Save the pending order; so many attempts failed before.
    SavePending(u32),
    /// See whether to go on waiting.
    Loop,
    /// Wait so many milliseconds for a fill notice.
    Notice(u64),
    /// Look at the execution list.
    Executions,
    /// The wait ran out: look at the execution list once more.
    TimeoutExecutions,
    /// The wait ran out and no fill is listed: read the balance.
    TimeoutBalance,
    /// Cancel the order.
    Cancel,
    /// Cancel every order of the stock.
    CancelAll,
    /// After the cancellation, look at the execution list.
    CancelExecutions,
    /// After the cancellation and with no fill listed, read the balance.
    CancelBalance,
    Done(EntryOutcome),
}

/// The reply to what was done.
#[derive(Debug, Clone, Copy, PartialEq, Eq, Structural)]
pub enum EntryReply {
    Holding(HoldingReply),
    Submitted(SubmitReply),
    /// Whether the pending order was saved.
    Saved(bool),
    /// Whether the runner was stopped, how long the order has been out, what time it is, and
    /// whether another stock asked for the lock.
    Loop { stopped: bool, elapsed_ms: u64, now: TimeOfDay, preempted: bool },
    Notice(Option<Fill>),
    Executions(Option<Fill>),
    /// Whether the cancellation went through.
    Cancelled(bool),
    AllCancelled,
}

/// Entering one position.
#[derive(Debug, Clone, Copy, PartialEq, Eq, Structural)]
pub struct EntryFlow {
    /// The price that the signal asked for.
    pub intended: i64,
    pub limit_price: i64,
    pub order_qty: u64,
    pub fill_timeout_ms: u64,
    /// Pending orders are saved.
    pub persist: bool,
    pub stage: EntryStage,
    pub holding_before: u64,
    pub filled_qty: u64,
    /// The price of what was filled; 0 where it is not known.
    pub fill_price: i64,
    pub timed_out: bool,
    pub preempted: bool,
    pub late_source: LateSource,
    /// The balance that showed a fill after the wait ran out.
    pub late_holding: Option<u64>,
}

/// The smaller of two quantities.
pub open spec fn at_most(a: u64, b: u64) -> u64 {
    if a <= b {
        a
    } else {
        b
    }
}

impl EntryFlow {
    /// There is something to order.
    pub open spec fn valid(self) -> bool {
        &&& self.order_qty > 0
        &&& self.stage matches EntryStage::SavePending(n) ==> n < SAVE_ATTEMPTS
        &&& self.stage matches EntryStage::CancelBalance ==> self.filled_qty == 0
    }

    /// `reply` answers what is done at this stage.
    pub open spec fn awaits(self, reply: EntryReply) -> bool {
        match self.stage {
            EntryStage::HoldingBefore => reply is Holding,
            EntryStage::Submit => reply is Submitted,
            EntryStage::SavePending(_) => reply is Saved,
            EntryStage::Loop => reply is Loop,
            EntryStage::Notice(_) => reply is Notice,
            EntryStage::Executions => reply is Executions,
            EntryStage::TimeoutExecutions => reply is Executions,
            EntryStage::TimeoutBalance => reply is Holding,
            EntryStage::Cancel => reply is Cancelled,
            EntryStage::CancelAll => reply is AllCancelled,
            EntryStage::CancelExecutions => reply is Executions,
            EntryStage::CancelBalance => reply is Holding,
            EntryStage::Done(_) => false,
        }
    }

    pub open spec fn at(self, stage: EntryStage) -> EntryFlow {
        EntryFlow { stage, ..self }
    }

    pub open spec fn ended(self, outcome: EntryOutcome) -> EntryFlow {
        self.at(EntryStage::Done(outcome))
    }

    /// The start.
    pub open spec fn begun(
        intended: i64,
        limit_price: i64,
        order_qty: u64,
        fill_timeout_ms: u64,
        persist: bool,
    ) -> EntryFlow {
        EntryFlow {
            intended,
            limit_price,
            order_qty,
            fill_timeout_ms,
            persist,
            stage: EntryStage::HoldingBefore,
            holding_before: 0,
            filled_qty: 0,
            fill_price: 0,
            timed_out: false,
            preempted: false,
            late_source: LateSource::Nothing,
            late_holding: None,
        }
    }

    /// The price at which the position counts as entered.
    pub open spec fn entered_at(self) -> i64 {
        if self.fill_price > 0 {
            self.fill_price
        } else {
            self.limit_price
        }
    }

    /// A position was entered.
    pub open spec fn filled(self) -> EntryFlow {
        self.ended(EntryOutcome::Filled { qty: self.filled_qty, price: self.entered_at() })
    }

    /// With a fill taken in as it was reported.
    pub open spec fn with_fill(self, got: Option<Fill>) -> EntryFlow {
        if got is Some {
            EntryFlow { fill_price: got->0.price, filled_qty: got->0.qty, ..self }
        } else {
            self
        }
    }

    /// The wait is over.
    pub open spec fn left_loop(self) -> EntryFlow {
        if self.filled_qty >= self.order_qty {
            self.filled()
        } else if self.timed_out {
            self.at(EntryStage::TimeoutExecutions)
        } else {
            self.at(EntryStage::Cancel)
        }
    }

    /// After a look at whether to go on waiting.  The first reason to stop counts.
    pub open spec fn looped(
        self,
        stopped: bool,
        elapsed_ms: u64,
        now: TimeOfDay,
        preempted: bool,
    ) -> EntryFlow {
        if stopped {
            self.left_loop()
        } else if elapsed_ms >= self.fill_timeout_ms {
            EntryFlow { timed_out: true, ..self }.left_loop()
        } else if now.secs >= ENTRY_DEADLINE {
            self.left_loop()
        } else if preempted {
            EntryFlow { preempted: true, ..self }.left_loop()
        } else {
            self.at(
                EntryStage::Notice(
                    at_most((self.fill_timeout_ms - elapsed_ms) as u64, NOTICE_SLICE_MS),
                ),
            )
        }
    }

    /// The wait ran out and every late source was consulted.
    pub open spec fn after_timeout(self) -> EntryFlow {
        if self.filled_qty >= self.order_qty {
            self.filled()
        } else {
            self.at(EntryStage::Cancel)
        }
    }

    /// With a late fill from the execution list taken in, up to what was ordered.
    pub open spec fn listed_late(self, got: Option<Fill>) -> EntryFlow {
        if got is Some {
            let qty = at_most(got->0.qty, self.order_qty);
            EntryFlow {
                fill_price: got->0.price,
                filled_qty: qty,
                late_source: if qty > 0 {
                    LateSource::Executions
                } else {
                    self.late_source
                },
                ..self
            }
        } else {
            self
        }
    }

    /// How much more the account holds than before the order, where a balance enquiry shows more.
    pub open spec fn gained(self, got: HoldingReply) -> Option<u64> {
        if got.quantity() is Some && got.quantity()->0 > self.holding_before {
            Some((got.quantity()->0 - self.holding_before) as u64)
        } else {
            None
        }
    }

    /// The average price in a balance reply; the limit price where it is missing.
    pub open spec fn average(self, got: HoldingReply) -> i64 {
        match got {
            HoldingReply::Held { avg: Some(p), .. } => p,
            _ => self.limit_price,
        }
    }

    /// With the balance after the wait taken in.
    pub open spec fn weighed_late(self, got: HoldingReply) -> EntryFlow {
        if self.gained(got) is Some {
            EntryFlow {
                filled_qty: at_most(self.gained(got)->0, self.order_qty),
                fill_price: self.average(got),
                late_holding: got.quantity(),
                late_source: LateSource::Balance,
                ..self
            }
        } else {
            self
        }
    }

    /// With the execution list after the cancellation taken in: more than was known counts, up to
    /// what was ordered; otherwise only a missing price is filled in.
    pub open spec fn listed_after_cancel(self, got: Option<Fill>) -> EntryFlow {
        match got {
            None => self,
            Some(fill) => if fill.qty > self.filled_qty {
                EntryFlow {
                    fill_price: fill.price,
                    filled_qty: at_most(fill.qty, self.order_qty),
                    ..self
                }
            } else if self.fill_price == 0 && fill.price > 0 {
                EntryFlow { fill_price: fill.price, ..self }
            } else {
                self
            },
        }
    }

    /// After the balance was read with nothing known to be filled.
    pub open spec fn weighed_after_cancel(self, got: HoldingReply) -> EntryFlow {
        if got is Failed {
            self.ended(EntryOutcome::CancelUnverified)
        } else if self.gained(got) is Some {
            EntryFlow {
                filled_qty: at_most(self.gained(got)->0, self.order_qty),
                fill_price: self.average(got),
                ..self
            }.filled()
        } else {
            self.ended(EntryOutcome::Cancelled { preempted: self.preempted })
        }
    }

    /// The entry after a reply.
    pub open spec fn next(self, reply: EntryReply) -> EntryFlow {
        match (self.stage, reply) {
            (EntryStage::HoldingBefore, EntryReply::Holding(got)) => if got.quantity() is Some {
                EntryFlow {
                    holding_before: got.quantity()->0,
                    stage: EntryStage::Submit,
                    ..self
                }
            } else {
                self.ended(EntryOutcome::BalanceUnreadable)
            },
            (EntryStage::Submit, EntryReply::Submitted(got)) => match got {
                SubmitReply::NetworkError => self.ended(EntryOutcome::SubmitFailed),
                SubmitReply::Rejected => self.ended(EntryOutcome::Rejected),
                SubmitReply::Accepted => if self.persist {
                    self.at(EntryStage::SavePending(0))
                } else {
                    self.at(EntryStage::Loop)
                },
            },
            (EntryStage::SavePending(n), EntryReply::Saved(ok)) => if ok {
                self.at(EntryStage::Loop)
            } else if n + 1 < SAVE_ATTEMPTS {
                self.at(EntryStage::SavePending((n + 1) as u32))
            } else {
                self.ended(EntryOutcome::PendingNotSaved)
            },
            (
                EntryStage::Loop,
                EntryReply::Loop { stopped, elapsed_ms, now, preempted },
            ) => self.looped(stopped, elapsed_ms, now, preempted),
            (EntryStage::Notice(_), EntryReply::Notice(got)) => {
                let s = self.with_fill(got);
                if s.filled_qty >= s.order_qty {
                    s.filled()
                } else {
                    s.at(EntryStage::Executions)
                }
            },
            (EntryStage::Executions, EntryReply::Executions(got)) => {
                let s = self.with_fill(got);
                if s.filled_qty >= s.order_qty {
                    s.filled()
                } else {
                    s.at(EntryStage::Loop)
                }
            },
            (EntryStage::TimeoutExecutions, EntryReply::Executions(got)) => {
                let s = self.listed_late(got);
                if s.filled_qty == 0 {
                    s.at(EntryStage::TimeoutBalance)
                } else {
                    s.after_timeout()
                }
            },
            (EntryStage::TimeoutBalance, EntryReply::Holding(got)) => self.weighed_late(
                got,
            ).after_timeout(),
            (EntryStage::Cancel, EntryReply::Cancelled(ok)) => if ok {
                self.at(EntryStage::CancelExecutions)
            } else {
                self.at(EntryStage::CancelAll)
            },
            (EntryStage::CancelAll, EntryReply::AllCancelled) => self.at(
                EntryStage::CancelExecutions,
            ),
            (EntryStage::CancelExecutions, EntryReply::Executions(got)) => {
                let s = self.listed_after_cancel(got);
                if s.filled_qty == 0 {
                    s.at(EntryStage::CancelBalance)
                } else {
                    s.filled()
                }
            },
            (EntryStage::CancelBalance, EntryReply::Holding(got)) => self.weighed_after_cancel(got),
            _ => self,
        }
    }

    /// What the wait left unfilled is known, and part of the order was filled: the step from a
    /// late look to the cancellation with a partial fill.
    pub open spec fn partial_on_timeout(self, reply: EntryReply) -> bool {
        (self.stage is TimeoutExecutions || self.stage is TimeoutBalance) && self.next(
            reply,
        ).stage is Cancel && self.next(reply).filled_qty > 0
    }

    /// The balance shows part of the order filled although it was cancelled.
    pub open spec fn partial_on_cancel(self, reply: EntryReply) -> bool {
        self.stage is CancelBalance && (reply matches EntryReply::Holding(got) && self.gained(
            got,
        ) is Some && self.gained(got)->0 < self.order_qty)
    }

    /// The wait ran out with nothing filled at all.
    pub open spec fn wait_expired(self, reply: EntryReply) -> bool {
        (self.stage is TimeoutExecutions || self.stage is TimeoutBalance) && self.next(
            reply,
        ).stage is Cancel && self.next(reply).filled_qty == 0
    }

    /// A journal record of this order.
    pub open spec fn record(
        self,
        phase: JournalPhase,
        reason: JournalReason,
        filled_price: Option<i64>,
        filled_qty: Option<i64>,
        holdings_after: Option<i64>,
        resolution: JournalResolution,
    ) -> JournalRecord {
        JournalRecord {
            phase,
            reason,
            intended_price: Some(self.intended),
            submitted_price: Some(self.limit_price),
            filled_price,
            filled_qty,
            holdings_before: Some(self.holding_before as i64),
            holdings_after,
            resolution,
        }
    }

    /// What the journal records when `reply` comes in.
    pub open spec fn recorded(self, reply: EntryReply) -> Seq<JournalRecord> {
        let held = Some(self.holding_before as i64);
        match (self.stage, reply) {
            (EntryStage::Submit, EntryReply::Submitted(SubmitReply::NetworkError)) => seq![
                self.record(
                    JournalPhase::EntrySubmitFailed,
                    JournalReason::SubmitNetworkError,
                    None,
                    None,
                    held,
                    JournalResolution::By(ExitResolutionSource::Unresolved),
                ),
            ],
            (EntryStage::Submit, EntryReply::Submitted(SubmitReply::Rejected)) => seq![
                self.record(
                    JournalPhase::EntrySubmitRejected,
                    JournalReason::BrokerRejected,
                    None,
                    None,
                    held,
                    JournalResolution::By(ExitResolutionSource::Unresolved),
                ),
            ],
            (EntryStage::SavePending(_), EntryReply::Saved(true)) => seq![
                self.record(
                    JournalPhase::EntrySubmitted,
                    JournalReason::OrderSubmitted,
                    None,
                    None,
                    held,
                    JournalResolution::Blank,
                ),
                self.record(
                    JournalPhase::EntryAcknowledged,
                    JournalReason::BrokerAcknowledged,
                    None,
                    None,
                    held,
                    JournalResolution::Blank,
                ),
            ],
            (EntryStage::CancelBalance, EntryReply::Holding(got)) => if self.partial_on_cancel(
                reply,
            ) {
                seq![
                    self.record(
                        JournalPhase::EntryPartial,
                        JournalReason::CancelFillRacePartial,
                        Some(self.average(got)),
                        Some(self.gained(got)->0 as i64),
                        Some(got.quantity()->0 as i64),
                        JournalResolution::By(ExitResolutionSource::BalanceOnly),
                    ),
                ]
            } else if got !is Failed && self.gained(got) is None {
                seq![
                    self.record(
                        JournalPhase::EntryCancelled,
                        if self.preempted {
                            JournalReason::EntryPreemptedCancelled
                        } else {
                            JournalReason::EntryTimeoutCancelled
                        },
                        None,
                        Some(0),
                        held,
                        JournalResolution::By(ExitResolutionSource::BalanceOnly),
                    ),
                ]
            } else {
                seq![]
            },
            _ => if self.partial_on_timeout(reply) {
                let s = self.next(reply);
                seq![
                    s.record(
                        JournalPhase::EntryPartial,
                        JournalReason::EntryTimeoutPartial,
                        Some(s.entered_at()),
                        Some(s.filled_qty as i64),
                        if s.late_holding is Some {
                            Some(s.late_holding->0 as i64)
                        } else {
                            None
                        },
                        match s.late_source {
                            LateSource::Executions => JournalResolution::By(
                                ExitResolutionSource::RestExecution,
                            ),
                            LateSource::Balance => JournalResolution::By(
                                ExitResolutionSource::BalanceOnly,
                            ),
                            LateSource::Nothing => JournalResolution::Unknown,
                        },
                    ),
                ]
            } else {
                seq![]
            },
        }
    }
}

/// What a step brought about besides the next stage.
#[derive(Debug)]
pub struct EntryEffects {
    /// What the journal records.
    pub journal: Vec<JournalRecord>,
    /// Part of the order is known to be filled.
    pub became_partial: bool,
    /// The wait ran out with nothing filled.
    pub wait_expired: bool,
}

impl EntryFlow {
    /// Starts an entry.
    pub fn begin(
        intended: i64,
        limit_price: i64,
        order_qty: u64,
        fill_timeout_ms: u64,
        persist: bool,
    ) -> (r: Self)
        requires
            order_qty > 0,
        ensures
            r == Self::begun(intended, limit_price, order_qty, fill_timeout_ms, persist),
            r.valid(),
    {
        EntryFlow {
            intended,
            limit_price,
            order_qty,
            fill_timeout_ms,
            persist,
            stage: EntryStage::HoldingBefore,
            holding_before: 0,
            filled_qty: 0,
            fill_price: 0,
            timed_out: false,
            preempted: false,
            late_source: LateSource::Nothing,
            late_holding: None,
        }
    }

    fn entry_price(&self) -> (r: i64)
        ensures
            r == self.entered_at(),
    {
        if self.fill_price > 0 {
            self.fill_price
        } else {
            self.limit_price
        }
    }

    fn finish_filled(&mut self)
        ensures
            *final(self) == old(self).filled(),
    {
        let price: i64 = self.entry_price();
        self.stage = EntryStage::Done(EntryOutcome::Filled { qty: self.filled_qty, price });
    }

    fn take_fill(&mut self, got: Option<Fill>)
        ensures
            *final(self) == old(self).with_fill(got),
    {
        if let Some(fill) = got {
            self.fill_price = fill.price;
            self.filled_qty = fill.qty;
        }
    }

    fn leave_loop(&mut self)
        ensures
            *final(self) == old(self).left_loop(),
    {
        if self.filled_qty >= self.order_qty {
            self.finish_filled();
        } else if self.timed_out {
            self.stage = EntryStage::TimeoutExecutions;
        } else {
            self.stage = EntryStage::Cancel;
        }
    }

    fn on_loop(&mut self, stopped: bool, elapsed_ms: u64, now: TimeOfDay, preempted: bool)
        ensures
            *final(self) == old(self).looped(stopped, elapsed_ms, now, preempted),
    {
        if stopped {
            self.leave_loop();
        } else if elapsed_ms >= self.fill_timeout_ms {
            self.timed_out = true;
            self.leave_loop();
        } else if now.secs >= ENTRY_DEADLINE {
            self.leave_loop();
        } else if preempted {
            self.preempted = true;
            self.leave_loop();
        } else {
            let left: u64 = self.fill_timeout_ms - elapsed_ms;
            let slice: u64 = if left <= NOTICE_SLICE_MS {
                left
            } else {
                NOTICE_SLICE_MS
            };
            self.stage = EntryStage::Notice(slice);
        }
    }

    fn settle_timeout(&mut self)
        ensures
            *final(self) == old(self).after_timeout(),
    {
        if self.filled_qty >= self.order_qty {
            self.finish_filled();
        } else {
            self.stage = EntryStage::Cancel;
        }
    }

    fn on_timeout_executions(&mut self, got: Option<Fill>)
        requires
            old(self).stage is TimeoutExecutions,
        ensures
            *final(self) == old(self).next(EntryReply::Executions(got)),
    {
        if let Some(fill) = got {
            let qty: u64 = if fill.qty <= self.order_qty {
                fill.qty
            } else {
                self.order_qty
            };
            self.fill_price = fill.price;
            self.filled_qty = qty;
            if qty > 0 {
                self.late_source = LateSource::Executions;
            }
        }
        if self.filled_qty == 0 {
            self.stage = EntryStage::TimeoutBalance;
        } else {
            self.settle_timeout();
        }
    }

    fn gain(&self, got: HoldingReply) -> (r: Option<u64>)
        ensures
            r == self.gained(got),
    {
        match got.qty() {
            Some(q) => if q > self.holding_before {
                Some(q - self.holding_before)
            } else {
                None
            },
            None => None,
        }
    }

    fn average_price(&self, got: HoldingReply) -> (r: i64)
        ensures
            r == self.average(got),
    {
        match got {
            HoldingReply::Held { avg: Some(p), .. } => p,
            _ => self.limit_price,
        }
    }

    fn on_timeout_balance(&mut self, got: HoldingReply)
        requires
            old(self).stage is TimeoutBalance,
        ensures
            *final(self) == old(self).next(EntryReply::Holding(got)),
    {
        let price: i64 = self.average_price(got);
        if let Some(gained) = self.gain(got) {
            self.filled_qty = if gained <= self.order_qty {
                gained
            } else {
                self.order_qty
            };
            self.fill_price = price;
            self.late_holding = got.qty();
            self.late_source = LateSource::Balance;
        }
        self.settle_timeout();
    }

    fn on_cancel_executions(&mut self, got: Option<Fill>)
        requires
            old(self).stage is CancelExecutions,
        ensures
            *final(self) == old(self).next(EntryReply::Executions(got)),
    {
        if let Some(fill) = got {
            if fill.qty > self.filled_qty {
                self.fill_price = fill.price;
                self.filled_qty = if fill.qty <= self.order_qty {
                    fill.qty
                } else {
                    self.order_qty
                };
            } else if self.fill_price == 0 && fill.price > 0 {
                self.fill_price = fill.price;
            }
        }
        if self.filled_qty == 0 {
            self.stage = EntryStage::CancelBalance;
        } else {
            self.finish_filled();
        }
    }

    fn on_cancel_balance(&mut self, got: HoldingReply)
        requires
            old(self).stage is CancelBalance,
        ensures
            *final(self) == old(self).next(EntryReply::Holding(got)),
    {
        let price: i64 = self.average_price(got);
        if matches!(got, HoldingReply::Failed) {
            self.stage = EntryStage::Done(EntryOutcome::CancelUnverified);
        } else if let Some(gained) = self.gain(got) {
            self.filled_qty = if gained <= self.order_qty {
                gained
            } else {
                self.order_qty
            };
            self.fill_price = price;
            self.finish_filled();
        } else {
            self.stage =
            EntryStage::Done(EntryOutcome::Cancelled { preempted: self.preempted });
        }
    }

    fn advance(&mut self, reply: EntryReply)
        requires
            old(self).valid(),
            old(self).awaits(reply),
        ensures
            *final(self) == old(self).next(reply),
    {
        match (self.stage, reply) {
            (EntryStage::HoldingBefore, EntryReply::Holding(got)) => match got.qty() {
                Some(q) => {
                    self.holding_before = q;
                    self.stage = EntryStage::Submit;
                },
                None => {
                    self.stage = EntryStage::Done(EntryOutcome::BalanceUnreadable);
                },
            },
            (EntryStage::Submit, EntryReply::Submitted(got)) => match got {
                SubmitReply::NetworkError => {
                    self.stage = EntryStage::Done(EntryOutcome::SubmitFailed);
                },
                SubmitReply::Rejected => {
                    self.stage = EntryStage::Done(EntryOutcome::Rejected);
                },
                SubmitReply::Accepted => {
                    self.stage = if self.persist {
                        EntryStage::SavePending(0)
                    } else {
                        EntryStage::Loop
                    };
                },
            },
            (EntryStage::SavePending(n), EntryReply::Saved(ok)) => {
                if ok {
                    self.stage = EntryStage::Loop;
                } else if n + 1 < SAVE_ATTEMPTS {
                    self.stage = EntryStage::SavePending(n + 1);
                } else {
                    self.stage = EntryStage::Done(EntryOutcome::PendingNotSaved);
                }
            },
            (
                EntryStage::Loop,
                EntryReply::Loop { stopped, elapsed_ms, now, preempted },
            ) => self.on_loop(stopped, elapsed_ms, now, preempted),
            (EntryStage::Notice(_), EntryReply::Notice(got)) => {
                self.take_fill(got);
                if self.filled_qty >= self.order_qty {
                    self.finish_filled();
                } else {
                    self.stage = EntryStage::Executions;
                }
            },
            (EntryStage::Executions, EntryReply::Executions(got)) => {
                self.take_fill(got);
                if self.filled_qty >= self.order_qty {
                    self.finish_filled();
                } else {
                    self.stage = EntryStage::Loop;
                }
            },
            (EntryStage::TimeoutExecutions, EntryReply::Executions(got)) =>
                self.on_timeout_executions(got),
            (EntryStage::TimeoutBalance, EntryReply::Holding(got)) => self.on_timeout_balance(got),
            (EntryStage::Cancel, EntryReply::Cancelled(ok)) => {
                self.stage = if ok {
                    EntryStage::CancelExecutions
                } else {
                    EntryStage::CancelAll
                };
            },
            (EntryStage::CancelAll, EntryReply::AllCancelled) => {
                self.stage = EntryStage::CancelExecutions;
            },
            (EntryStage::CancelExecutions, EntryReply::Executions(got)) =>
                self.on_cancel_executions(got),
            (EntryStage::CancelBalance, EntryReply::Holding(got)) => self.on_cancel_balance(got),
            _ => {},
        }
    }

    fn note(
        &self,
        phase: JournalPhase,
        reason: JournalReason,
        filled_price: Option<i64>,
        filled_qty: Option<i64>,
        holdings_after: Option<i64>,
        resolution: JournalResolution,
    ) -> (r: JournalRecord)
        ensures
            r == self.record(
                phase,
                reason,
                filled_price,
                filled_qty,
                holdings_after,
                resolution,
            ),
    {
        JournalRecord {
            phase,
            reason,
            intended_price: Some(self.intended),
            submitted_price: Some(self.limit_price),
            filled_price,
            filled_qty,
            holdings_before: Some(self.holding_before as i64),
            holdings_after,
            resolution,
        }
    }

    fn timeout_note(&self) -> (r: JournalRecord)
        ensures
            r == self.record(
                JournalPhase::EntryPartial,
                JournalReason::EntryTimeoutPartial,
                Some(self.entered_at()),
                Some(self.filled_qty as i64),
                if self.late_holding is Some {
                    Some(self.late_holding->0 as i64)
                } else {
                    None
                },
                match self.late_source {
                    LateSource::Executions => JournalResolution::By(
                        ExitResolutionSource::RestExecution,
                    ),
                    LateSource::Balance => JournalResolution::By(ExitResolutionSource::BalanceOnly),
                    LateSource::Nothing => JournalResolution::Unknown,
                },
            ),
    {
        let after: Option<i64> = match self.late_holding {
            Some(q) => Some(q as i64),
            None => None,
        };
        let resolution = match self.late_source {
            LateSource::Executions => JournalResolution::By(ExitResolutionSource::RestExecution),
            LateSource::Balance => JournalResolution::By(ExitResolutionSource::BalanceOnly),
            LateSource::Nothing => JournalResolution::Unknown,
        };
        self.note(
            JournalPhase::EntryPartial,
            JournalReason::EntryTimeoutPartial,
            Some(self.entry_price()),
            Some(self.filled_qty as i64),
            after,
            resolution,
        )
    }

    fn cancel_notes(&self, got: HoldingReply) -> (r: Vec<JournalRecord>)
        requires
            self.stage is CancelBalance,
        ensures
            r@ == self.recorded(EntryReply::Holding(got)),
    {
        let mut notes: Vec<JournalRecord> = Vec::new();
        match self.gain(got) {
            Some(gained) => {
                if gained < self.order_qty {
                    let after: u64 = match got {
                        HoldingReply::Held { qty, .. } => qty,
                        _ => 0,
                    };
                    notes.push(
                        self.note(
                            JournalPhase::EntryPartial,
                            JournalReason::CancelFillRacePartial,
                            Some(self.average_price(got)),
                            Some(gained as i64),
                            Some(after as i64),
                            JournalResolution::By(ExitResolutionSource::BalanceOnly),
                        ),
                    );
                }
            },
            None => {
                if !matches!(got, HoldingReply::Failed) {
                    let reason = if self.preempted {
                        JournalReason::EntryPreemptedCancelled
                    } else {
                        JournalReason::EntryTimeoutCancelled
                    };
                    notes.push(
                        self.note(
                            JournalPhase::EntryCancelled,
                            reason,
                            None,
                            Some(0),
                            Some(self.holding_before as i64),
                            JournalResolution::By(ExitResolutionSource::BalanceOnly),
                        ),
                    );
                }
            },
        }
        notes
    }

    fn submit_notes(&self, reply: EntryReply) -> (r: Vec<JournalRecord>)
        requires
            self.awaits(reply),
            self.stage is Submit || self.stage is SavePending,
        ensures
            r@ == self.recorded(reply),
    {
        let held: Option<i64> = Some(self.holding_before as i64);
        let mut notes: Vec<JournalRecord> = Vec::new();
        match reply {
            EntryReply::Submitted(SubmitReply::NetworkError) => {
                notes.push(
                    self.note(
                        JournalPhase::EntrySubmitFailed,
                        JournalReason::SubmitNetworkError,
                        None,
                        None,
                        held,
                        JournalResolution::By(ExitResolutionSource::Unresolved),
                    ),
                );
            },
            EntryReply::Submitted(SubmitReply::Rejected) => {
                notes.push(
                    self.note(
                        JournalPhase::EntrySubmitRejected,
                        JournalReason::BrokerRejected,
                        None,
                        None,
                        held,
                        JournalResolution::By(ExitResolutionSource::Unresolved),
                    ),
                );
            },
            EntryReply::Saved(true) => {
                notes.push(
                    self.note(
                        JournalPhase::EntrySubmitted,
                        JournalReason::OrderSubmitted,
                        None,
                        None,
                        held,
                        JournalResolution::Blank,
                    ),
                );
                notes.push(
                    self.note(
                        JournalPhase::EntryAcknowledged,
                        JournalReason::BrokerAcknowledged,
                        None,
                        None,
                        held,
                        JournalResolution::Blank,
                    ),
                );
            },
            _ => {},
        }
        notes
    }

    /// Takes in a reply.
    pub fn step(&mut self, reply: EntryReply) -> (effects: EntryEffects)
        requires
            old(self).valid(),
            old(self).awaits(reply),
        ensures
            *final(self) == old(self).next(reply),
            final(self).valid(),
            effects.journal@ == old(self).recorded(reply),
            effects.became_partial == (old(self).partial_on_timeout(reply) || old(
                self,
            ).partial_on_cancel(reply)),
            effects.wait_expired == old(self).wait_expired(reply),
    {
        let before: EntryFlow = *self;
        self.advance(reply);
        let waited: bool = matches!(
            before.stage,
            EntryStage::TimeoutExecutions | EntryStage::TimeoutBalance
        ) && matches!(self.stage, EntryStage::Cancel);
        let mut became_partial: bool = waited && self.filled_qty > 0;
        let journal: Vec<JournalRecord> = match (before.stage, reply) {
            (EntryStage::CancelBalance, EntryReply::Holding(got)) => {
                became_partial =
                match before.gain(got) {
                    Some(gained) => gained < before.order_qty,
                    None => false,
                };
                before.cancel_notes(got)
            },
            (EntryStage::Submit, _) => before.submit_notes(reply),
            (EntryStage::SavePending(_), _) => before.submit_notes(reply),
            _ => {
                let mut notes: Vec<JournalRecord> = Vec::new();
                if became_partial {
                    notes.push(self.timeout_note());
                }
                notes
            },
        };
        EntryEffects { journal, became_partial, wait_expired: waited && self.filled_qty == 0 }
    }

    /// What the journal records of a position that was entered.
    pub fn filled_note(&self, qty: u64, price: i64) -> (r: JournalRecord)
        requires
            self.holding_before + qty <= u64::MAX,
        ensures
            r == self.record(
                JournalPhase::EntryFinalFill,
                JournalReason::EntryFilled,
                Some(price),
                Some(qty as i64),
                Some((self.holding_before + qty) as u64 as i64),
                JournalResolution::Blank,
            ),
    {
        self.note(
            JournalPhase::EntryFinalFill,
            JournalReason::EntryFilled,
            Some(price),
            Some(qty as i64),
            Some((self.holding_before + qty) as i64),
            JournalResolution::Blank,
        )
    }
}

/// An entry after several replies, in their order.
pub open spec fn entry_run(flow: EntryFlow, replies: Seq<EntryReply>) -> EntryFlow
    decreases replies.len(),
{
    if replies.len() == 0 {
        flow
    } else {
        entry_run(flow, replies.drop_last()).next(replies.last())
    }
}

/// No fill is overlooked: an entry is given up as not filled only on a balance that was read
/// after the cancellation and shows no more than before the order.
pub proof fn given_up_only_on_unchanged_balance(flow: EntryFlow, reply: EntryReply, preempted: bool)
    requires
        flow.awaits(reply),
        flow.next(reply).stage == EntryStage::Done(EntryOutcome::Cancelled { preempted }),
    ensures
        flow.stage is CancelBalance,
        reply matches EntryReply::Holding(got) && got.quantity() is Some && got.quantity()->0
            <= flow.holding_before,
{
}

/// A balance that cannot be read after the cancellation, with nothing known to be filled, is for
/// a person to look at.
pub proof fn unreadable_balance_is_for_a_person(flow: EntryFlow)
    requires
        flow.stage is CancelBalance,
    ensures
        flow.next(EntryReply::Holding(HoldingReply::Failed)).stage == EntryStage::Done(
            EntryOutcome::CancelUnverified,
        ),
{
}

/// No order goes out where the balance before it is not known.
pub proof fn no_order_without_balance(flow: EntryFlow, reply: EntryReply)
    requires
        flow.awaits(reply),
        flow.next(reply).stage is Submit,
    ensures
        flow.stage is HoldingBefore,
        reply matches EntryReply::Holding(got) && got.quantity() == Some(
            flow.next(reply).holding_before,
        ),
{
}

/// How many orders went out over several replies.
pub open spec fn orders_sent(flow: EntryFlow, replies: Seq<EntryReply>) -> int
    decreases replies.len(),
{
    if replies.len() == 0 {
        0
    } else {
        orders_sent(flow, replies.drop_last()) + if entry_run(
            flow,
            replies.drop_last(),
        ).stage is Submit && replies.last() is Submitted {
            1int
        } else {
            0
        }
    }
}

proof fn orders_sent_by_stage(
    intended: i64,
    limit_price: i64,
    order_qty: u64,
    fill_timeout_ms: u64,
    persist: bool,
    replies: Seq<EntryReply>,
)
    ensures
        ({
            let start = EntryFlow::begun(intended, limit_price, order_qty, fill_timeout_ms, persist);
            let stage = entry_run(start, replies).stage;
            orders_sent(start, replies) <= (if stage is HoldingBefore || stage is Submit {
                0int
            } else {
                1
            })
        }),
    decreases replies.len(),
{
    if replies.len() > 0 {
        orders_sent_by_stage(
            intended,
            limit_price,
            order_qty,
            fill_timeout_ms,
            persist,
            replies.drop_last(),
        );
    }
}

/// Whatever the replies, one entry sends one order at most.
pub proof fn one_order_per_entry(
    intended: i64,
    limit_price: i64,
    order_qty: u64,
    fill_timeout_ms: u64,
    persist: bool,
    replies: Seq<EntryReply>,
)
    ensures
        orders_sent(
            EntryFlow::begun(intended, limit_price, order_qty, fill_timeout_ms, persist),
            replies,
        ) <= 1,
{
    orders_sent_by_stage(intended, limit_price, order_qty, fill_timeout_ms, persist, replies);
}

/// A position that was entered is not empty, and it has a price where the order had one.
pub proof fn entered_position_is_real(flow: EntryFlow, reply: EntryReply, qty: u64, price: i64)
    requires
        flow.valid(),
        flow.awaits(reply),
        flow.limit_price > 0,
        flow.next(reply).stage == EntryStage::Done(EntryOutcome::Filled { qty, price }),
    ensures
        qty > 0,
        price > 0,
{
}

/// Each reply came when it was waited for.
pub open spec fn entry_followed(flow: EntryFlow, replies: Seq<EntryReply>) -> bool
    decreases replies.len(),
{
    replies.len() == 0 || (entry_followed(flow, replies.drop_last()) && entry_run(
        flow,
        replies.drop_last(),
    ).awaits(replies.last()))
}

/// The fill that a reply tells of.
pub open spec fn fill_in(reply: EntryReply) -> Option<Fill> {
    match reply {
        EntryReply::Notice(got) => got,
        EntryReply::Executions(got) => got,
        _ => None,
    }
}

/// The balance that a reply tells of.
pub open spec fn balance_in(reply: EntryReply) -> Option<u64> {
    match reply {
        EntryReply::Holding(HoldingReply::Nothing) => Some(0),
        EntryReply::Holding(HoldingReply::Held { qty, .. }) => Some(qty),
        _ => None,
    }
}

/// A reply shows at least `qty` of the order to be filled: it tells of such a fill, or of a balance
/// that is so much more than the one before the order.
pub open spec fn shows_filled(reply: EntryReply, holding_before: u64, qty: u64) -> bool {
    ||| (fill_in(reply) is Some && fill_in(reply)->0.qty >= qty)
    ||| (balance_in(reply) is Some && balance_in(reply)->0 >= holding_before + qty)
}

/// One of the replies shows at least `qty` of the order to be filled.
#[verifier::opaque]
pub open spec fn filled_shown(replies: Seq<EntryReply>, holding_before: u64, qty: u64) -> bool {
    exists|i: int|
        0 <= i < replies.len() && shows_filled(#[trigger] replies[i], holding_before, qty)
}

/// A reply tells of that price.
pub open spec fn shows_price(reply: EntryReply, price: i64) -> bool {
    ||| (fill_in(reply) is Some && fill_in(reply)->0.price == price)
    ||| (reply matches EntryReply::Holding(HoldingReply::Held { avg: Some(p), .. }) && p == price)
}

/// One of the replies tells of that price.
#[verifier::opaque]
pub open spec fn price_shown(replies: Seq<EntryReply>, price: i64) -> bool {
    exists|i: int| 0 <= i < replies.len() && shows_price(#[trigger] replies[i], price)
}

/// The last fill that was told of.
pub open spec fn last_fill(replies: Seq<EntryReply>) -> Option<Fill>
    decreases replies.len(),
{
    if replies.len() == 0 {
        None
    } else if fill_in(replies.last()) is Some {
        fill_in(replies.last())
    } else {
        last_fill(replies.drop_last())
    }
}

/// How often the pending order could not be saved.
pub open spec fn failed_saves(replies: Seq<EntryReply>) -> int
    decreases replies.len(),
{
    if replies.len() == 0 {
        0
    } else {
        failed_saves(replies.drop_last()) + (if replies.last() == EntryReply::Saved(false) {
            1int
        } else {
            0
        })
    }
}

/// The order was cancelled, or that was tried.
#[verifier::opaque]
pub open spec fn cancel_tried(replies: Seq<EntryReply>) -> bool {
    exists|i: int| 0 <= i < replies.len() && (#[trigger] replies[i]) is Cancelled
}

/// The pending order was saved.
#[verifier::opaque]
pub open spec fn save_done(replies: Seq<EntryReply>) -> bool {
    exists|i: int| 0 <= i < replies.len() && (#[trigger] replies[i]) == EntryReply::Saved(true)
}

/// The order is out and its fill is waited for, or its cancellation is under way.
pub open spec fn order_open(stage: EntryStage) -> bool {
    match stage {
        EntryStage::HoldingBefore | EntryStage::Submit | EntryStage::SavePending(
            _,
        ) | EntryStage::Done(_) => false,
        _ => true,
    }
}

/// What holds of an entry under way.
pub open spec fn entry_sound(start: EntryFlow, flow: EntryFlow, replies: Seq<EntryReply>) -> bool {
    &&& flow.valid()
    &&& flow.intended == start.intended
    &&& flow.limit_price == start.limit_price
    &&& flow.order_qty == start.order_qty
    &&& flow.fill_timeout_ms == start.fill_timeout_ms
    &&& flow.persist == start.persist
    &&& flow.stage is HoldingBefore <==> replies.len() == 0
    &&& flow.stage is HoldingBefore ==> failed_saves(replies) == 0
    &&& replies.len() > 0 && flow.stage != EntryStage::Done(EntryOutcome::BalanceUnreadable)
        ==> balance_in(replies[0]) == Some(flow.holding_before)
    &&& flow.stage is HoldingBefore || flow.stage is Submit || flow.stage is SavePending
        ==> flow.filled_qty == 0 && flow.fill_price == 0
    &&& flow.stage is Submit ==> failed_saves(replies) == 0
    &&& flow.stage matches EntryStage::SavePending(n) ==> failed_saves(replies) == n && start.persist
    &&& flow.stage == EntryStage::Done(EntryOutcome::PendingNotSaved) ==> failed_saves(replies) == 3
        && start.persist
    &&& order_open(flow.stage) && start.persist ==> save_done(replies)
    &&& order_open(flow.stage) ==> flow.filled_qty < flow.order_qty
    &&& flow.stage is TimeoutBalance ==> flow.filled_qty == 0
    &&& flow.filled_qty == 0 || filled_shown(replies, flow.holding_before, flow.filled_qty)
    &&& last_fill(replies) matches Some(f) ==> flow.filled_qty >= f.qty || flow.filled_qty
        >= flow.order_qty
    &&& flow.fill_price == 0 || flow.fill_price == flow.limit_price || price_shown(
        replies,
        flow.fill_price,
    )
    &&& flow.stage is CancelAll || flow.stage is CancelExecutions || flow.stage is CancelBalance
        ==> cancel_tried(replies)
    &&& flow.stage matches EntryStage::Done(outcome) ==> match outcome {
        EntryOutcome::Filled { qty, price } => {
            &&& qty == flow.filled_qty
            &&& qty > 0
            &&& start.persist ==> save_done(replies)
            &&& qty >= start.order_qty || cancel_tried(replies)
            &&& price == start.limit_price || price_shown(replies, price)
        },
        EntryOutcome::Cancelled { .. } | EntryOutcome::CancelUnverified => {
            &&& flow.filled_qty == 0
            &&& cancel_tried(replies)
        },
        EntryOutcome::BalanceUnreadable => replies.len() == 1 && replies[0] is Holding
            && balance_in(replies[0]) is None,
        EntryOutcome::SubmitFailed => replies.last() == EntryReply::Submitted(
            SubmitReply::NetworkError,
        ),
        EntryOutcome::Rejected => replies.last() == EntryReply::Submitted(SubmitReply::Rejected),
        EntryOutcome::PendingNotSaved => true,
    }
}

proof fn one_more_reply(head: Seq<EntryReply>, reply: EntryReply, before: u64, qty: u64, price: i64)
    ensures
        filled_shown(head, before, qty) ==> filled_shown(head.push(reply), before, qty),
        shows_filled(reply, before, qty) ==> filled_shown(head.push(reply), before, qty),
        price_shown(head, price) ==> price_shown(head.push(reply), price),
        shows_price(reply, price) ==> price_shown(head.push(reply), price),
        cancel_tried(head) || reply is Cancelled ==> cancel_tried(head.push(reply)),
        save_done(head) || reply == EntryReply::Saved(true) ==> save_done(head.push(reply)),
{
    reveal(filled_shown);
    reveal(price_shown);
    reveal(cancel_tried);
    reveal(save_done);
    let replies = head.push(reply);
    let n = head.len() as int;
    assert(replies[n] == reply);
    assert forall|i: int| 0 <= i < n implies #[trigger] head[i] == replies[i] by {}
    if filled_shown(head, before, qty) {
        let i = choose|i: int|
            0 <= i < head.len() && shows_filled(#[trigger] head[i], before, qty);
        assert(shows_filled(replies[i], before, qty));
    }
    if price_shown(head, price) {
        let i = choose|i: int| 0 <= i < head.len() && shows_price(#[trigger] head[i], price);
        assert(shows_price(replies[i], price));
    }
    if cancel_tried(head) {
        let i = choose|i: int| 0 <= i < head.len() && (#[trigger] head[i]) is Cancelled;
        assert(replies[i] is Cancelled);
    }
    if save_done(head) {
        let i = choose|i: int|
            0 <= i < head.len() && (#[trigger] head[i]) == EntryReply::Saved(true);
        assert(replies[i] == EntryReply::Saved(true));
    }
}

proof fn order_goes_out_soundly(
    start: EntryFlow,
    flow: EntryFlow,
    head: Seq<EntryReply>,
    reply: EntryReply,
)
    requires
        entry_sound(start, flow, head),
        flow.awaits(reply),
        flow.stage is HoldingBefore || flow.stage is Submit || flow.stage is SavePending,
    ensures
        entry_sound(start, flow.next(reply), head.push(reply)),
{
    let replies = head.push(reply);
    let next = flow.next(reply);
    assert(replies.drop_last() =~= head);
    assert(replies.last() == reply);
    one_more_reply(head, reply, next.holding_before, next.filled_qty, next.fill_price);
    one_more_reply(head, reply, flow.holding_before, flow.filled_qty, flow.fill_price);
    assert(replies[0] == if head.len() > 0 {
        head[0]
    } else {
        reply
    });
}

proof fn wait_is_sound(
    start: EntryFlow,
    flow: EntryFlow,
    head: Seq<EntryReply>,
    reply: EntryReply,
)
    requires
        entry_sound(start, flow, head),
        flow.awaits(reply),
        flow.stage is Loop,
    ensures
        entry_sound(start, flow.next(reply), head.push(reply)),
{
    let replies = head.push(reply);
    let next = flow.next(reply);
    assert(replies.drop_last() =~= head);
    assert(replies.last() == reply);
    one_more_reply(head, reply, next.holding_before, next.filled_qty, next.fill_price);
    one_more_reply(head, reply, flow.holding_before, flow.filled_qty, flow.fill_price);
    assert(replies[0] == if head.len() > 0 {
        head[0]
    } else {
        reply
    });
}

proof fn fills_come_in_soundly(
    start: EntryFlow,
    flow: EntryFlow,
    head: Seq<EntryReply>,
    reply: EntryReply,
)
    requires
        entry_sound(start, flow, head),
        flow.awaits(reply),
        flow.stage is Notice || flow.stage is Executions,
    ensures
        entry_sound(start, flow.next(reply), head.push(reply)),
{
    let replies = head.push(reply);
    let next = flow.next(reply);
    assert(replies.drop_last() =~= head);
    assert(replies.last() == reply);
    one_more_reply(head, reply, next.holding_before, next.filled_qty, next.fill_price);
    one_more_reply(head, reply, flow.holding_before, flow.filled_qty, flow.fill_price);
    assert(replies[0] == if head.len() > 0 {
        head[0]
    } else {
        reply
    });
}

proof fn late_list_is_sound(
    start: EntryFlow,
    flow: EntryFlow,
    head: Seq<EntryReply>,
    reply: EntryReply,
)
    requires
        entry_sound(start, flow, head),
        flow.awaits(reply),
        flow.stage is TimeoutExecutions,
    ensures
        entry_sound(start, flow.next(reply), head.push(reply)),
{
    let replies = head.push(reply);
    let next = flow.next(reply);
    assert(replies.drop_last() =~= head);
    assert(replies.last() == reply);
    one_more_reply(head, reply, next.holding_before, next.filled_qty, next.fill_price);
    one_more_reply(head, reply, flow.holding_before, flow.filled_qty, flow.fill_price);
    assert(replies[0] == if head.len() > 0 {
        head[0]
    } else {
        reply
    });
}

proof fn late_balance_is_sound(
    start: EntryFlow,
    flow: EntryFlow,
    head: Seq<EntryReply>,
    reply: EntryReply,
)
    requires
        entry_sound(start, flow, head),
        flow.awaits(reply),
        flow.stage is TimeoutBalance,
    ensures
        entry_sound(start, flow.next(reply), head.push(reply)),
{
    let replies = head.push(reply);
    let next = flow.next(reply);
    assert(replies.drop_last() =~= head);
    assert(replies.last() == reply);
    one_more_reply(head, reply, next.holding_before, next.filled_qty, next.fill_price);
    one_more_reply(head, reply, flow.holding_before, flow.filled_qty, flow.fill_price);
    assert(replies[0] == if head.len() > 0 {
        head[0]
    } else {
        reply
    });
}

proof fn cancellation_is_sound(
    start: EntryFlow,
    flow: EntryFlow,
    head: Seq<EntryReply>,
    reply: EntryReply,
)
    requires
        entry_sound(start, flow, head),
        flow.awaits(reply),
        flow.stage is Cancel || flow.stage is CancelAll,
    ensures
        entry_sound(start, flow.next(reply), head.push(reply)),
{
    let replies = head.push(reply);
    let next = flow.next(reply);
    assert(replies.drop_last() =~= head);
    assert(replies.last() == reply);
    one_more_reply(head, reply, next.holding_before, next.filled_qty, next.fill_price);
    one_more_reply(head, reply, flow.holding_before, flow.filled_qty, flow.fill_price);
    assert(replies[0] == if head.len() > 0 {
        head[0]
    } else {
        reply
    });
}

proof fn list_after_cancel_is_sound(
    start: EntryFlow,
    flow: EntryFlow,
    head: Seq<EntryReply>,
    reply: EntryReply,
)
    requires
        entry_sound(start, flow, head),
        flow.awaits(reply),
        flow.stage is CancelExecutions,
    ensures
        entry_sound(start, flow.next(reply), head.push(reply)),
{
    let replies = head.push(reply);
    let next = flow.next(reply);
    assert(replies.drop_last() =~= head);
    assert(replies.last() == reply);
    one_more_reply(head, reply, next.holding_before, next.filled_qty, next.fill_price);
    one_more_reply(head, reply, flow.holding_before, flow.filled_qty, flow.fill_price);
    assert(replies[0] == if head.len() > 0 {
        head[0]
    } else {
        reply
    });
}

proof fn balance_after_cancel_is_sound(
    start: EntryFlow,
    flow: EntryFlow,
    head: Seq<EntryReply>,
    reply: EntryReply,
)
    requires
        entry_sound(start, flow, head),
        flow.awaits(reply),
        flow.stage is CancelBalance,
    ensures
        entry_sound(start, flow.next(reply), head.push(reply)),
{
    let replies = head.push(reply);
    let next = flow.next(reply);
    assert(replies.drop_last() =~= head);
    assert(replies.last() == reply);
    one_more_reply(head, reply, next.holding_before, next.filled_qty, next.fill_price);
    one_more_reply(head, reply, flow.holding_before, flow.filled_qty, flow.fill_price);
    assert(replies[0] == if head.len() > 0 {
        head[0]
    } else {
        reply
    });
}

proof fn entry_stays_sound(start: EntryFlow, replies: Seq<EntryReply>)
    requires
        start.valid(),
        start == EntryFlow::begun(
            start.intended,
            start.limit_price,
            start.order_qty,
            start.fill_timeout_ms,
            start.persist,
        ),
        entry_followed(start, replies),
    ensures
        entry_sound(start, entry_run(start, replies), replies),
    decreases replies.len(),
{
    if replies.len() > 0 {
        let head = replies.drop_last();
        entry_stays_sound(start, head);
        let flow = entry_run(start, head);
        let reply = replies.last();
        match flow.stage {
            EntryStage::HoldingBefore | EntryStage::Submit | EntryStage::SavePending(_) => {
                order_goes_out_soundly(start, flow, head, reply);
            },
            EntryStage::Loop => {
                wait_is_sound(start, flow, head, reply);
            },
            EntryStage::Notice(_) | EntryStage::Executions => {
                fills_come_in_soundly(start, flow, head, reply);
            },
            EntryStage::TimeoutExecutions => {
                late_list_is_sound(start, flow, head, reply);
            },
            EntryStage::TimeoutBalance => {
                late_balance_is_sound(start, flow, head, reply);
            },
            EntryStage::Cancel | EntryStage::CancelAll => {
                cancellation_is_sound(start, flow, head, reply);
            },
            EntryStage::CancelExecutions => {
                list_after_cancel_is_sound(start, flow, head, reply);
            },
            EntryStage::CancelBalance => {
                balance_after_cancel_is_sound(start, flow, head, reply);
            },
            EntryStage::Done(_) => {},
        }
        assert(replies =~= head.push(replies.last()));
    }
}

/// A position that was entered is one that the replies showed: none of it is made up.  Its
/// quantity is at most that of a fill that was told of, or the growth of a balance over the one
/// before the order; its price is one that was told of, or else the limit price.  What was told of
/// last is not passed over.  Only an order that was shown to be filled in full is not cancelled.
pub proof fn entered_position_was_shown(
    intended: i64,
    limit_price: i64,
    order_qty: u64,
    fill_timeout_ms: u64,
    persist: bool,
    replies: Seq<EntryReply>,
    qty: u64,
    price: i64,
)
    requires
        order_qty > 0,
        entry_followed(
            EntryFlow::begun(intended, limit_price, order_qty, fill_timeout_ms, persist),
            replies,
        ),
        entry_run(
            EntryFlow::begun(intended, limit_price, order_qty, fill_timeout_ms, persist),
            replies,
        ).stage == EntryStage::Done(EntryOutcome::Filled { qty, price }),
    ensures
        qty > 0,
        replies.len() > 0,
        balance_in(replies[0]) matches Some(held) && exists|i: int|
            0 <= i < replies.len() && shows_filled(#[trigger] replies[i], held, qty),
        last_fill(replies) matches Some(f) ==> qty >= f.qty || qty >= order_qty,
        price == limit_price || exists|i: int|
            0 <= i < replies.len() && shows_price(#[trigger] replies[i], price),
        qty >= order_qty || exists|i: int|
            0 <= i < replies.len() && (#[trigger] replies[i]) is Cancelled,
        persist ==> exists|i: int|
            0 <= i < replies.len() && (#[trigger] replies[i]) == EntryReply::Saved(true),
{
    let start = EntryFlow::begun(intended, limit_price, order_qty, fill_timeout_ms, persist);
    entry_stays_sound(start, replies);
    reveal(filled_shown);
    reveal(price_shown);
    reveal(cancel_tried);
    reveal(save_done);
}

/// An entry that came to nothing came to nothing as far as anything showed: no fill was told of
/// last, and the order was cancelled first.
pub proof fn given_up_entry_was_not_filled(
    intended: i64,
    limit_price: i64,
    order_qty: u64,
    fill_timeout_ms: u64,
    persist: bool,
    replies: Seq<EntryReply>,
)
    requires
        order_qty > 0,
        entry_followed(
            EntryFlow::begun(intended, limit_price, order_qty, fill_timeout_ms, persist),
            replies,
        ),
        ({
            let stage = entry_run(
                EntryFlow::begun(intended, limit_price, order_qty, fill_timeout_ms, persist),
                replies,
            ).stage;
            stage is Done && (stage->Done_0 is Cancelled || stage->Done_0 is CancelUnverified)
        }),
    ensures
        last_fill(replies) matches Some(f) ==> f.qty == 0,
        exists|i: int| 0 <= i < replies.len() && (#[trigger] replies[i]) is Cancelled,
{
    let start = EntryFlow::begun(intended, limit_price, order_qty, fill_timeout_ms, persist);
    entry_stays_sound(start, replies);
    reveal(cancel_tried);
}

/// An order goes wrong only where it was told to: without a balance it does not go out, a failure
/// to send it and a refusal end the entry as what they are, and saving it is tried three times.
pub proof fn failed_entries_have_their_cause(
    intended: i64,
    limit_price: i64,
    order_qty: u64,
    fill_timeout_ms: u64,
    persist: bool,
    replies: Seq<EntryReply>,
)
    requires
        order_qty > 0,
        entry_followed(
            EntryFlow::begun(intended, limit_price, order_qty, fill_timeout_ms, persist),
            replies,
        ),
    ensures
        entry_run(
            EntryFlow::begun(intended, limit_price, order_qty, fill_timeout_ms, persist),
            replies,
        ).stage matches EntryStage::Done(outcome) ==> match outcome {
            EntryOutcome::BalanceUnreadable => replies == seq![
                EntryReply::Holding(HoldingReply::Failed),
            ],
            EntryOutcome::SubmitFailed => replies.last() == EntryReply::Submitted(
                SubmitReply::NetworkError,
            ),
            EntryOutcome::Rejected => replies.last() == EntryReply::Submitted(
                SubmitReply::Rejected,
            ),
            EntryOutcome::PendingNotSaved => persist && failed_saves(replies) == 3,
            _ => true,
        },
{
    let start = EntryFlow::begun(intended, limit_price, order_qty, fill_timeout_ms, persist);
    entry_stays_sound(start, replies);
    if entry_run(start, replies).stage == EntryStage::Done(EntryOutcome::BalanceUnreadable) {
        assert(replies =~= seq![EntryReply::Holding(HoldingReply::Failed)]);
    }
}

/// A fill is waited for exactly as long as the runner is not stopped, the time allowed is not up,
/// it is before 15:20, and no other stock asks for the lock; never for more than five seconds at a
/// time, nor beyond the time allowed.  An order that ran out of time is looked up once more before
/// it is cancelled; in the other cases it is cancelled at once.
pub proof fn waiting_has_its_limits(
    flow: EntryFlow,
    stopped: bool,
    elapsed_ms: u64,
    now: TimeOfDay,
    preempted: bool,
)
    requires
        flow.stage is Loop,
        !flow.timed_out,
    ensures
        ({
            let next = flow.next(EntryReply::Loop { stopped, elapsed_ms, now, preempted });
            let in_time = elapsed_ms < flow.fill_timeout_ms;
            let goes_on = !stopped && in_time && now.secs < 15 * 3600 + 20 * 60 && !preempted;
            &&& goes_on <==> next.stage is Notice
            &&& next.stage matches EntryStage::Notice(ms) ==> 0 < ms <= 5_000 && elapsed_ms + ms
                <= flow.fill_timeout_ms && (ms == 5_000 || elapsed_ms + ms == flow.fill_timeout_ms)
            &&& !goes_on && flow.filled_qty < flow.order_qty ==> next.stage == (if !stopped
                && !in_time {
                EntryStage::TimeoutExecutions
            } else {
                EntryStage::Cancel
            })
            &&& !goes_on && flow.filled_qty >= flow.order_qty ==> next.stage is Done
            &&& next.preempted == (flow.preempted || (!stopped && in_time && now.secs < 15 * 3600
                + 20 * 60 && preempted))
            &&& next.filled_qty == flow.filled_qty
            &&& next.fill_price == flow.fill_price
        }),
{
}

/// Fills that come in while an order is waited for are taken in as they are told, with their
/// price; the wait goes on, in turns, until the whole order is filled.
pub proof fn fills_are_taken_in(flow: EntryFlow, got: Option<Fill>)
    requires
        flow.stage is Notice || flow.stage is Executions,
    ensures
        ({
            let next = flow.next(
                if flow.stage is Notice {
                    EntryReply::Notice(got)
                } else {
                    EntryReply::Executions(got)
                },
            );
            &&& got matches Some(f) ==> next.filled_qty == f.qty && next.fill_price == f.price
            &&& got is None ==> next.filled_qty == flow.filled_qty && next.fill_price
                == flow.fill_price
            &&& next.stage is Done <==> next.filled_qty >= flow.order_qty
            &&& next.stage is Done || next.stage == (if flow.stage is Notice {
                EntryStage::Executions
            } else {
                EntryStage::Loop
            })
        }),
{
}

/// After the wait ran out, what the execution list shows counts, up to what was ordered; where it
/// shows nothing, what the balance gained does.  What is missing then is cancelled.
pub proof fn late_looks_settle_the_order(flow: EntryFlow, got: Option<Fill>, held: HoldingReply)
    requires
        flow.valid(),
        flow.filled_qty < flow.order_qty,
    ensures
        flow.stage is TimeoutExecutions ==> {
            let next = flow.next(EntryReply::Executions(got));
            &&& got matches Some(f) ==> next.fill_price == f.price && next.filled_qty <= f.qty
                && next.filled_qty <= flow.order_qty && (next.filled_qty == f.qty
                || next.filled_qty == flow.order_qty)
            &&& got is None ==> next.filled_qty == flow.filled_qty
            &&& next.stage is TimeoutBalance <==> next.filled_qty == 0
            &&& next.stage is Done <==> next.filled_qty >= flow.order_qty
            &&& next.stage is TimeoutBalance || next.stage is Done || next.stage is Cancel
        },
        flow.stage is TimeoutBalance ==> {
            let next = flow.next(EntryReply::Holding(held));
            let now = balance_in(EntryReply::Holding(held));
            &&& (now matches Some(q) && q > flow.holding_before) ==> next.filled_qty
                <= flow.order_qty && (next.filled_qty == flow.order_qty || next.filled_qty
                + flow.holding_before == now->0) && next.filled_qty + flow.holding_before <= now->0
                && next.fill_price == (match held {
                HoldingReply::Held { avg: Some(p), .. } => p,
                _ => flow.limit_price,
            })
            &&& !(now matches Some(q) && q > flow.holding_before) ==> next.filled_qty
                == flow.filled_qty
            &&& next.stage is Done <==> next.filled_qty >= flow.order_qty
            &&& next.stage is Done || next.stage is Cancel
        },
{
}

/// A cancellation that fails is followed by cancelling every order; after either, the execution
/// list is looked at, and where nothing is known to be filled, the balance.
pub proof fn cancelled_orders_are_looked_up(flow: EntryFlow, ok: bool, got: Option<Fill>)
    requires
        flow.valid(),
        flow.filled_qty < flow.order_qty,
    ensures
        flow.stage is Cancel ==> flow.next(EntryReply::Cancelled(ok)) == (EntryFlow {
            stage: if ok {
                EntryStage::CancelExecutions
            } else {
                EntryStage::CancelAll
            },
            ..flow
        }),
        flow.stage is CancelAll ==> flow.next(EntryReply::AllCancelled) == (EntryFlow {
            stage: EntryStage::CancelExecutions,
            ..flow
        }),
        flow.stage is CancelExecutions ==> {
            let next = flow.next(EntryReply::Executions(got));
            &&& next.filled_qty >= flow.filled_qty
            &&& next.filled_qty <= flow.order_qty
            &&& got matches Some(f) ==> next.filled_qty == (if f.qty > flow.order_qty {
                flow.order_qty
            } else if f.qty > flow.filled_qty {
                f.qty
            } else {
                flow.filled_qty
            }) && next.fill_price == (if f.qty > flow.filled_qty || (flow.fill_price == 0 && f.price
                > 0) {
                f.price
            } else {
                flow.fill_price
            })
            &&& got is None ==> next.filled_qty == flow.filled_qty && next.fill_price
                == flow.fill_price
            &&& next.stage is CancelBalance <==> next.filled_qty == 0
            &&& next.filled_qty > 0 ==> next.stage is Done && next.stage->Done_0 is Filled
        },
{
}

/// After a cancelled order with nothing known to be filled, the balance decides: what it gained was
/// entered, up to what was ordered, at its average price or else the limit.
pub proof fn balance_decides_after_the_cancellation(flow: EntryFlow, held: HoldingReply)
    requires
        flow.valid(),
        flow.stage is CancelBalance,
        flow.limit_price > 0,
    ensures
        ({
            let now = balance_in(EntryReply::Holding(held));
            match flow.next(EntryReply::Holding(held)).stage {
                EntryStage::Done(EntryOutcome::Filled { qty, price }) => {
                    &&& now matches Some(q) && q >= flow.holding_before + qty
                    &&& qty == flow.order_qty || now == Some((flow.holding_before + qty) as u64)
                    &&& 0 < qty <= flow.order_qty
                    &&& price == (match held {
                        HoldingReply::Held { avg: Some(p), .. } => if p > 0 {
                            p
                        } else {
                            flow.limit_price
                        },
                        _ => flow.limit_price,
                    })
                },
                EntryStage::Done(EntryOutcome::Cancelled { preempted }) => {
                    &&& now matches Some(q) && q <= flow.holding_before
                    &&& preempted == flow.preempted
                },
                EntryStage::Done(EntryOutcome::CancelUnverified) => now is None,
                _ => false,
            }
        }),
{
}

/// The price of an entry is that of its fill where that is known, and the limit price otherwise.
pub proof fn entry_price_is_the_fill_price(flow: EntryFlow, reply: EntryReply)
    requires
        flow.awaits(reply),
        flow.next(reply).stage is Done,
        flow.next(reply).stage->Done_0 is Filled,
    ensures
        ({
            let next = flow.next(reply);
            next.stage == EntryStage::Done(
                EntryOutcome::Filled {
                    qty: next.filled_qty,
                    price: if next.fill_price > 0 {
                        next.fill_price
                    } else {
                        flow.limit_price
                    },
                },
            )
        }),
{
}

/// A marketable price lies beyond the anchor by the ticks that were asked for, one at least: above
/// it for a long entry, below it for a short one, where it stays positive.
pub proof fn marketable_price_crosses(side: PositionSide, anchor: int, tick_offset: int)
    requires
        anchor > 0,
        tick_offset >= 0,
    ensures
        ({
            let tick = if anchor < 2_000 {
                1int
            } else if anchor < 50_000 {
                5
            } else {
                50
            };
            let ticks = if tick_offset == 0 {
                1
            } else {
                tick_offset
            };
            match side {
                PositionSide::Long => marketable(side, anchor, tick_offset) == anchor + ticks * tick,
                PositionSide::Short => {
                    &&& marketable(side, anchor, tick_offset) >= tick
                    &&& anchor - ticks * tick >= tick ==> marketable(side, anchor, tick_offset)
                        == anchor - ticks * tick
                    &&& anchor - ticks * tick < tick ==> marketable(side, anchor, tick_offset)
                        == tick
                },
            }
        }),
{
}

/// As much is ordered as can be: one less than the broker allows, or all that the cash buys.
pub proof fn as_much_is_ordered_as_can_be(n: i64, cash: i64, entry_price: i64)
    ensures
        n >= 2 ==> quantity_to_order(BuyableReply::Orderable(n), entry_price) == n - 1,
        n <= 1 ==> quantity_to_order(BuyableReply::Orderable(n), entry_price) == 0,
        cash > 0 && entry_price > 0 ==> {
            let q = quantity_to_order(BuyableReply::Cash(cash), entry_price);
            q * entry_price <= cash < (q + 1) * entry_price
        },
        cash <= 0 || entry_price <= 0 ==> quantity_to_order(BuyableReply::Cash(cash), entry_price)
            == 0,
{
    if cash > 0 && entry_price > 0 {
        let c = cash as int;
        let p = entry_price as int;
        assert(c / p * p <= c < (c / p + 1) * p) by (nonlinear_arith)
            requires
                c > 0,
                p > 0,
        ;
    }
}

/// What the journal says of an order is what is known of it.
pub proof fn entry_journal_is_true(flow: EntryFlow, reply: EntryReply, i: int)
    requires
        flow.valid(),
        flow.awaits(reply),
        0 <= i < flow.recorded(reply).len(),
    ensures
        ({
            let r = flow.recorded(reply)[i];
            let next = flow.next(reply);
            &&& r.intended_price == Some(flow.intended)
            &&& r.submitted_price == Some(flow.limit_price)
            &&& r.holdings_before == Some(flow.holding_before as i64)
            &&& r.phase is EntryPartial ==> r.filled_qty == Some(next.filled_qty as i64)
                && next.filled_qty < flow.order_qty && next.filled_qty > 0
            &&& r.phase is EntryCancelled ==> r.filled_qty == Some(0i64) && next.stage is Done
                && next.stage->Done_0 is Cancelled
            &&& r.phase is EntrySubmitFailed ==> next.stage == EntryStage::Done(
                EntryOutcome::SubmitFailed,
            )
            &&& r.phase is EntrySubmitRejected ==> next.stage == EntryStage::Done(
                EntryOutcome::Rejected,
            )
        }),
{
}

/// The wait runs out with nothing filled where the execution list showed nothing and the balance
/// then cannot be read or holds no more than before the order, and never otherwise.
pub proof fn waits_run_out_on_an_unchanged_balance(flow: EntryFlow, reply: EntryReply)
    requires
        flow.valid(),
        flow.order_qty > 0,
        flow.stage is TimeoutBalance ==> flow.filled_qty == 0,
    ensures
        !(flow.stage is TimeoutBalance) ==> !flow.wait_expired(reply),
        flow.stage is TimeoutBalance ==> match reply {
            EntryReply::Holding(HoldingReply::Failed) => flow.wait_expired(reply),
            EntryReply::Holding(HoldingReply::Nothing) => flow.wait_expired(reply),
            EntryReply::Holding(HoldingReply::Held { qty, .. }) => flow.wait_expired(reply)
                <==> qty <= flow.holding_before,
            _ => true,
        },
{
}

/// An entry begins with nothing filled, with a look at the balance, and with the terms it was given.
pub proof fn entries_begin_with_nothing(
    intended: i64,
    limit_price: i64,
    order_qty: u64,
    fill_timeout_ms: u64,
    persist: bool,
)
    ensures
        ({
            let flow = EntryFlow::begun(intended, limit_price, order_qty, fill_timeout_ms, persist);
            &&& flow.stage is HoldingBefore
            &&& flow.filled_qty == 0 && flow.fill_price == 0
            &&& !flow.timed_out && !flow.preempted
            &&& flow.intended == intended
            &&& flow.limit_price == limit_price
            &&& flow.order_qty == order_qty
            &&& flow.fill_timeout_ms == fill_timeout_ms
            &&& flow.persist == persist
        }),
{
}

/// What the journal says of one step: one record, of this phase and reason, with these figures.
pub open spec fn one_record(
    records: Seq<JournalRecord>,
    phase: JournalPhase,
    reason: JournalReason,
    filled_price: Option<i64>,
    filled_qty: Option<i64>,
    holdings_after: Option<i64>,
    by: ExitResolutionSource,
) -> bool {
    &&& records.len() == 1
    &&& records[0].phase == phase
    &&& records[0].reason == reason
    &&& records[0].filled_price == filled_price
    &&& records[0].filled_qty == filled_qty
    &&& records[0].holdings_after == holdings_after
    &&& records[0].resolution == JournalResolution::By(by)
}

/// An order that failed or was refused is journaled as such, one that was saved as sent and taken;
/// and looking for its fill is not journaled until the wait is over.
pub proof fn sent_orders_are_journaled(flow: EntryFlow, reply: EntryReply)
    requires
        flow.valid(),
        flow.awaits(reply),
    ensures
        ({
            let j = flow.recorded(reply);
            let held = Some(flow.holding_before as i64);
            let nobody = ExitResolutionSource::Unresolved;
            match flow.stage {
                EntryStage::Submit => match reply {
                    EntryReply::Submitted(SubmitReply::NetworkError) => one_record(
                        j,
                        JournalPhase::EntrySubmitFailed,
                        JournalReason::SubmitNetworkError,
                        None,
                        None,
                        held,
                        nobody,
                    ),
                    EntryReply::Submitted(SubmitReply::Rejected) => one_record(
                        j,
                        JournalPhase::EntrySubmitRejected,
                        JournalReason::BrokerRejected,
                        None,
                        None,
                        held,
                        nobody,
                    ),
                    _ => j.len() == 0,
                },
                EntryStage::SavePending(_) => if reply == EntryReply::Saved(true) {
                    &&& j.len() == 2
                    &&& j[0].phase is EntrySubmitted && j[0].reason is OrderSubmitted
                    &&& j[1].phase is EntryAcknowledged && j[1].reason is BrokerAcknowledged
                    &&& j[0].filled_qty is None && j[1].filled_qty is None
                    &&& j[0].filled_price is None && j[1].filled_price is None
                    &&& j[0].holdings_after == held && j[1].holdings_after == held
                    &&& j[0].resolution is Blank && j[1].resolution is Blank
                } else {
                    j.len() == 0
                },
                EntryStage::TimeoutExecutions | EntryStage::TimeoutBalance
                | EntryStage::CancelBalance => true,
                _ => j.len() == 0,
            }
        }),
{
}

/// A wait that ran out with part of the order filled is journaled with that part, its price, and
/// how it came to be known.
pub proof fn partial_fills_are_journaled(flow: EntryFlow, price: i64, qty: u64, avg: Option<i64>)
    requires
        flow.valid(),
        flow.filled_qty == 0,
        flow.late_holding is None,
        flow.order_qty > 0,
    ensures
        flow.stage is TimeoutExecutions ==> {
            let j = flow.recorded(EntryReply::Executions(Some(Fill { price, qty })));
            if 0 < qty < flow.order_qty {
                one_record(
                    j,
                    JournalPhase::EntryPartial,
                    JournalReason::EntryTimeoutPartial,
                    Some(
                        if price > 0 {
                            price
                        } else {
                            flow.limit_price
                        },
                    ),
                    Some(qty as i64),
                    None,
                    ExitResolutionSource::RestExecution,
                )
            } else {
                j.len() == 0
            }
        },
        flow.stage is TimeoutBalance ==> {
            let j = flow.recorded(EntryReply::Holding(HoldingReply::Held { qty, avg }));
            if flow.holding_before < qty < flow.holding_before + flow.order_qty {
                one_record(
                    j,
                    JournalPhase::EntryPartial,
                    JournalReason::EntryTimeoutPartial,
                    Some(
                        if avg is Some && avg->0 > 0 {
                            avg->0
                        } else {
                            flow.limit_price
                        },
                    ),
                    Some((qty - flow.holding_before) as i64),
                    Some(qty as i64),
                    ExitResolutionSource::BalanceOnly,
                )
            } else {
                j.len() == 0
            }
        },
{
}

/// A cancelled order is journaled as cancelled where the balance holds no more than before, and as
/// filled in part where it holds some of the order; a balance that cannot be read tells nothing.
pub proof fn cancellations_are_journaled(flow: EntryFlow, qty: u64, avg: Option<i64>)
    requires
        flow.valid(),
        flow.stage is CancelBalance,
        flow.order_qty > 0,
    ensures
        ({
            let shown = flow.recorded(EntryReply::Holding(HoldingReply::Held { qty, avg }));
            let none = flow.recorded(EntryReply::Holding(HoldingReply::Nothing));
            let why = if flow.preempted {
                JournalReason::EntryPreemptedCancelled
            } else {
                JournalReason::EntryTimeoutCancelled
            };
            let by = ExitResolutionSource::BalanceOnly;
            let held = Some(flow.holding_before as i64);
            &&& flow.recorded(EntryReply::Holding(HoldingReply::Failed)).len() == 0
            &&& one_record(none, JournalPhase::EntryCancelled, why, None, Some(0), held, by)
            &&& qty <= flow.holding_before ==> one_record(
                shown,
                JournalPhase::EntryCancelled,
                why,
                None,
                Some(0),
                held,
                by,
            )
            &&& flow.holding_before < qty < flow.holding_before + flow.order_qty ==> one_record(
                shown,
                JournalPhase::EntryPartial,
                JournalReason::CancelFillRacePartial,
                Some(
                    if avg is Some {
                        avg->0
                    } else {
                        flow.limit_price
                    },
                ),
                Some((qty - flow.holding_before) as i64),
                Some(qty as i64),
                by,
            )
            &&& qty >= flow.holding_before + flow.order_qty ==> shown.len() == 0
        }),
{
}

} // verus!
