//! What follows the fill of a take-profit order.

use crate::clock::{truncated, TimeOfDay};
use crate::close::SubmitReply;
use crate::exit::{ExitResolutionSource, ExitTraceMeta, VerifySummary};
use crate::journal::{JournalPhase, JournalReason, JournalRecord, JournalResolution};
use crate::types::{ExitReason, Fill, OrderSide, Position, TradeResult};
use vstd::prelude::*;

verus! {

/// What the broker's report on a take-profit order amounts to.
#[derive(Debug, Clone, Copy, PartialEq, Eq, Structural)]
pub enum TpFill {
    /// Nothing was filled, or nothing is known: look again later.
    NotYet,
    /// Part of the order was filled.
    Partial(Fill),
    /// The whole order was filled.
    Full(Fill),
}

/// What the broker's report on a take-profit order amounts to.
pub open spec fn tp_fill_of(report: Option<Fill>, expected_qty: u64) -> TpFill {
    match report {
        None => TpFill::NotYet,
        Some(fill) => if fill.qty >= expected_qty {
            TpFill::Full(fill)
        } else if fill.qty > 0 {
            TpFill::Partial(fill)
        } else {
            TpFill::NotYet
        },
    }
}

/// What the broker's report on a take-profit order amounts to.
pub fn classify_tp_fill(report: Option<Fill>, expected_qty: u64) -> (r: TpFill)
    ensures
        r == tp_fill_of(report, expected_qty),
{
    match report {
        None => TpFill::NotYet,
        Some(fill) => {
            if fill.qty >= expected_qty {
                TpFill::Full(fill)
            } else if fill.qty > 0 {
                TpFill::Partial(fill)
            } else {
                TpFill::NotYet
            }
        },
    }
}

/// The price of a sale in two parts: the average weighted by quantity, rounded towards zero.
pub open spec fn blended(
    first_price: int,
    first_qty: int,
    second_price: int,
    second_qty: int,
) -> int {
    truncated(first_price * first_qty + second_price * second_qty, first_qty + second_qty)
}

/// A weighted average lies between the two prices.
pub proof fn blended_lies_between(
    first_price: int,
    first_qty: int,
    second_price: int,
    second_qty: int,
)
    requires
        first_qty >= 0,
        second_qty >= 0,
        first_qty + second_qty > 0,
    ensures
        first_price <= second_price ==> first_price <= blended(
            first_price,
            first_qty,
            second_price,
            second_qty,
        ) <= second_price,
        second_price <= first_price ==> second_price <= blended(
            first_price,
            first_qty,
            second_price,
            second_qty,
        ) <= first_price,
{
    let total = first_qty + second_qty;
    let value = first_price * first_qty + second_price * second_qty;
    let lo = if first_price <= second_price {
        first_price
    } else {
        second_price
    };
    let hi = if first_price <= second_price {
        second_price
    } else {
        first_price
    };
    assert(lo * total <= value <= hi * total) by (nonlinear_arith)
        requires
            total == first_qty + second_qty,
            value == first_price * first_qty + second_price * second_qty,
            first_qty >= 0,
            second_qty >= 0,
            lo <= first_price <= hi,
            lo <= second_price <= hi,
    ;
    if value >= 0 {
        assert(lo <= value / total <= hi) by (nonlinear_arith)
            requires
                lo * total <= value <= hi * total,
                total > 0,
        ;
    } else {
        let neg = -value;
        assert(-hi <= neg / total <= -lo) by (nonlinear_arith)
            requires
                lo * total <= -neg <= hi * total,
                total > 0,
        ;
    }
}

/// The price of a sale in two parts.  Where nothing was sold at all, the first price.
pub fn blended_price(first_price: i64, first_qty: u64, second_price: i64, second_qty: u64) -> (r:
    i64)
    requires
        first_qty + second_qty <= u64::MAX,
    ensures
        r == (if first_qty + second_qty > 0 {
            blended(
                first_price as int,
                first_qty as int,
                second_price as int,
                second_qty as int,
            )
        } else {
            first_price as int
        }),
{
    let total: u64 = first_qty + second_qty;
    if total == 0 {
        return first_price;
    }
    proof {
        let p = first_price as int;
        let q = second_price as int;
        let m = first_qty as int;
        let n = second_qty as int;
        assert(-0x8000_0000_0000_0000int * (m + n) <= p * m + q * n <= 0x8000_0000_0000_0000int * (m + n)
            && -0x8000_0000_0000_0000int * m <= p * m <= 0x8000_0000_0000_0000int * m
            && -0x8000_0000_0000_0000int * n <= q * n <= 0x8000_0000_0000_0000int * n)
            by (nonlinear_arith)
            requires
                -0x8000_0000_0000_0000int <= p <= 0x8000_0000_0000_0000int,
                -0x8000_0000_0000_0000int <= q <= 0x8000_0000_0000_0000int,
                m >= 0,
                n >= 0,
        ;
        blended_lies_between(p, m, q, n);
    }
    let value: i128 = first_price as i128 * first_qty as i128 + second_price as i128
        * second_qty as i128;
    (value / total as i128) as i64
}

/// The trade, its trace and its journal record after the whole take-profit order was filled.
pub fn finalize_tp_full_fill(
    pos: &Position,
    tp_price: i64,
    tp_fill_price: i64,
    exit_time: TimeOfDay,
) -> (r: (TradeResult, ExitTraceMeta, JournalRecord))
    ensures
        r.0 == (TradeResult {
            take_profit: tp_price,
            ..pos.trade(tp_fill_price, exit_time, ExitReason::TakeProfit)
        }),
        !r.1.fill_price_unknown,
        r.1.exit_resolution_source@ == ExitResolutionSource::TpLimit.name(),
        r.2 == (JournalRecord {
            phase: JournalPhase::ExitFinalFill,
            reason: JournalReason::TpFullFill,
            intended_price: Some(tp_price),
            submitted_price: Some(tp_price),
            filled_price: Some(tp_fill_price),
            filled_qty: Some(pos.quantity as i64),
            holdings_before: Some(pos.quantity as i64),
            holdings_after: Some(0),
            resolution: JournalResolution::By(ExitResolutionSource::TpLimit),
        }),
{
    let mut trade = pos.closed(tp_fill_price, exit_time, ExitReason::TakeProfit);
    trade.take_profit = tp_price;
    (
        trade,
        ExitTraceMeta::tp_limit(),
        JournalRecord {
            phase: JournalPhase::ExitFinalFill,
            reason: JournalReason::TpFullFill,
            intended_price: Some(tp_price),
            submitted_price: Some(tp_price),
            filled_price: Some(tp_fill_price),
            filled_qty: Some(pos.quantity as i64),
            holdings_before: Some(pos.quantity as i64),
            holdings_after: Some(0),
            resolution: JournalResolution::By(ExitResolutionSource::TpLimit),
        },
    )
}

/// How selling the rest of a partly filled take-profit order ended.
#[derive(Debug, Clone, Copy, PartialEq, Eq, Structural)]
pub enum TpOutcome {
    /// Nothing is left.
    Flat { exit_price: i64, price_unknown: bool, source: ExitResolutionSource },
    /// The rest could not be sold.
    SubmitFailed { remaining: u64 },
    /// The verification took too long.
    VerifyTimedOut,
    /// Something is left.
    StillRemaining { held: u64 },
}

impl TpOutcome {
    /// The sale ended badly, and nobody but a person can put it right.
    pub open spec fn for_a_person(self) -> bool {
        !(self is Flat || self is VerifyTimedOut)
    }

    /// The trade and its trace, where nothing is left.
    pub fn trade_of(&self, pos: &Position, tp_price: i64, exit_time: TimeOfDay) -> (r: Option<
        (TradeResult, ExitTraceMeta),
    >)
        ensures
            match *self {
                TpOutcome::Flat { exit_price, price_unknown, source } => {
                    &&& r matches Some((trade, meta))
                    &&& trade == (TradeResult {
                        take_profit: tp_price,
                        ..pos.trade(exit_price, exit_time, ExitReason::TakeProfit)
                    })
                    &&& meta.fill_price_unknown == price_unknown
                    &&& meta.exit_resolution_source@ == source.name()
                },
                _ => r is None,
            },
    {
        match *self {
            TpOutcome::Flat { exit_price, price_unknown, source } => {
                let mut trade = pos.closed(exit_price, exit_time, ExitReason::TakeProfit);
                trade.take_profit = tp_price;
                Some((trade, ExitTraceMeta::of(price_unknown, source)))
            },
            _ => None,
        }
    }
}

/// What is done next.
#[derive(Debug, Clone, Copy, PartialEq, Eq, Structural)]
pub enum TpStage {
    /// Cancel what is left of the take-profit order.
    CancelRest,
    /// Sell the rest at the market.
    Submit,
    /// Verify that order.
    Verify,
    Done(TpOutcome),
}

/// The reply to what was done.
#[derive(Debug, Clone, Copy, PartialEq, Eq, Structural)]
pub enum TpReply {
    /// The rest was cancelled, or could not be.
    RestCancelled,
    Submitted(SubmitReply),
    /// The verification's outcome, or `None` where it took too long.
    Verified(Option<VerifySummary>),
}

/// What to do at a stage.
#[derive(Debug, Clone, Copy, PartialEq, Eq, Structural)]
pub enum TpRequest {
    CancelRest,
    Market { side: OrderSide, qty: u64 },
    Verify { expected_qty: u64, holding_before: u64 },
    Finish(TpOutcome),
}

/// Selling the rest of a partly filled take-profit order.
#[derive(Debug, Clone, Copy, PartialEq, Eq, Structural)]
pub struct TpPartialFlow {
    pub tp_price: i64,
    pub tp_fill: Fill,
    pub remaining: u64,
    pub stage: TpStage,
}

impl TpPartialFlow {
    /// The start: the rest of the order is cancelled first, where the exchange gave it a desk
    /// number to cancel it by.
    pub open spec fn begun(tp_price: i64, tp_fill: Fill, expected_qty: u64, can_cancel: bool) -> Self {
        TpPartialFlow {
            tp_price,
            tp_fill,
            remaining: (expected_qty - tp_fill.qty) as u64,
            stage: if can_cancel {
                TpStage::CancelRest
            } else {
                TpStage::Submit
            },
        }
    }

    /// `reply` answers what is done at this stage.
    pub open spec fn awaits(self, reply: TpReply) -> bool {
        match self.stage {
            TpStage::CancelRest => reply is RestCancelled,
            TpStage::Submit => reply is Submitted,
            TpStage::Verify => reply is Verified,
            TpStage::Done(_) => false,
        }
    }

    /// The two quantities sold can be added.
    pub open spec fn countable(self, reply: TpReply) -> bool {
        reply matches TpReply::Verified(Some(v)) ==> self.tp_fill.qty + v.filled_qty <= u64::MAX
    }

    /// How many replies can still be asked for.
    pub open spec fn replies_left(self) -> int {
        match self.stage {
            TpStage::CancelRest => 3,
            TpStage::Submit => 2,
            TpStage::Verify => 1,
            TpStage::Done(_) => 0,
        }
    }

    pub open spec fn at(self, stage: TpStage) -> TpPartialFlow {
        TpPartialFlow { stage, ..self }
    }

    /// The price of the whole exit: blended where both parts have a price, the take-profit part's
    /// where the other is not known.
    pub open spec fn exit_price(self, v: VerifySummary) -> int {
        if v.filled_price is Some && self.tp_fill.qty + v.filled_qty > 0 {
            blended(
                self.tp_fill.price as int,
                self.tp_fill.qty as int,
                v.filled_price->0 as int,
                v.filled_qty as int,
            )
        } else {
            self.tp_fill.price as int
        }
    }

    /// Selling the rest, after a reply.
    pub open spec fn next(self, reply: TpReply) -> TpPartialFlow {
        match (self.stage, reply) {
            (TpStage::CancelRest, TpReply::RestCancelled) => self.at(TpStage::Submit),
            (TpStage::Submit, TpReply::Submitted(got)) => if got is Accepted {
                self.at(TpStage::Verify)
            } else {
                self.at(TpStage::Done(TpOutcome::SubmitFailed { remaining: self.remaining }))
            },
            (TpStage::Verify, TpReply::Verified(None)) => self.at(
                TpStage::Done(TpOutcome::VerifyTimedOut),
            ),
            (TpStage::Verify, TpReply::Verified(Some(v))) => match v.holdings_after {
                Some(0) => self.at(
                    TpStage::Done(
                        TpOutcome::Flat {
                            exit_price: self.exit_price(v) as i64,
                            price_unknown: v.filled_price is None,
                            source: v.source,
                        },
                    ),
                ),
                Some(left) => self.at(TpStage::Done(TpOutcome::StillRemaining { held: left })),
                None => self.at(
                    TpStage::Done(TpOutcome::StillRemaining { held: self.remaining }),
                ),
            },
            _ => self,
        }
    }

    /// What to do at this stage.
    pub open spec fn wanted(self) -> TpRequest {
        match self.stage {
            TpStage::CancelRest => TpRequest::CancelRest,
            TpStage::Submit => TpRequest::Market { side: OrderSide::Sell, qty: self.remaining },
            TpStage::Verify => TpRequest::Verify {
                expected_qty: self.remaining,
                holding_before: self.remaining,
            },
            TpStage::Done(outcome) => TpRequest::Finish(outcome),
        }
    }

    /// What the journal records when `reply` comes in.
    pub open spec fn recorded(self, reply: TpReply) -> Option<JournalRecord> {
        match (self.stage, reply) {
            (TpStage::Submit, TpReply::Submitted(got)) => if got is Accepted {
                None
            } else {
                Some(
                    JournalRecord {
                        phase: JournalPhase::ExitRetrySubmitFailed,
                        reason: JournalReason::TpPartialSubmitFailed,
                        intended_price: Some(self.tp_price),
                        submitted_price: None,
                        filled_price: Some(self.tp_fill.price),
                        filled_qty: Some(self.tp_fill.qty as i64),
                        holdings_before: Some(self.remaining as i64),
                        holdings_after: None,
                        resolution: JournalResolution::By(ExitResolutionSource::Unresolved),
                    },
                )
            },
            (TpStage::Verify, TpReply::Verified(Some(v))) => if v.holdings_after == Some(0u64) {
                Some(
                    JournalRecord {
                        phase: JournalPhase::ExitRetryFinalFill,
                        reason: JournalReason::TpPartialFinalFill,
                        intended_price: Some(self.tp_price),
                        submitted_price: None,
                        filled_price: Some(self.exit_price(v) as i64),
                        filled_qty: Some(self.remaining as i64),
                        holdings_before: Some(self.remaining as i64),
                        holdings_after: Some(0),
                        resolution: JournalResolution::By(v.source),
                    },
                )
            } else {
                Some(
                    JournalRecord {
                        phase: JournalPhase::ExitRetryStillRemainingManual,
                        reason: JournalReason::TpPartialStillRemaining,
                        intended_price: Some(self.tp_price),
                        submitted_price: None,
                        filled_price: v.filled_price,
                        filled_qty: Some(v.filled_qty as i64),
                        holdings_before: Some(self.remaining as i64),
                        holdings_after: Some(
                            if v.holdings_after is Some {
                                v.holdings_after->0 as i64
                            } else {
                                self.remaining as i64
                            },
                        ),
                        resolution: JournalResolution::By(v.source),
                    },
                )
            },
            _ => None,
        }
    }

    /// Starts selling the rest of a partly filled take-profit order.
    pub fn begin(tp_price: i64, tp_fill: Fill, expected_qty: u64, can_cancel: bool) -> (r: Self)
        requires
            tp_fill.qty < expected_qty,
        ensures
            r == Self::begun(tp_price, tp_fill, expected_qty, can_cancel),
    {
        TpPartialFlow {
            tp_price,
            tp_fill,
            remaining: expected_qty - tp_fill.qty,
            stage: if can_cancel {
                TpStage::CancelRest
            } else {
                TpStage::Submit
            },
        }
    }

    /// What to do at this stage.
    pub fn request(&self) -> (r: TpRequest)
        ensures
            r == self.wanted(),
    {
        match self.stage {
            TpStage::CancelRest => TpRequest::CancelRest,
            TpStage::Submit => TpRequest::Market { side: OrderSide::Sell, qty: self.remaining },
            TpStage::Verify => TpRequest::Verify {
                expected_qty: self.remaining,
                holding_before: self.remaining,
            },
            TpStage::Done(outcome) => TpRequest::Finish(outcome),
        }
    }

    fn on_verified(&mut self, v: VerifySummary) -> (journal: Option<JournalRecord>)
        requires
            old(self).stage is Verify,
            old(self).tp_fill.qty + v.filled_qty <= u64::MAX,
        ensures
            *final(self) == old(self).next(TpReply::Verified(Some(v))),
            journal == old(self).recorded(TpReply::Verified(Some(v))),
    {
        if matches!(v.holdings_after, Some(0)) {
            let (exit_price, price_unknown): (i64, bool) = match v.filled_price {
                Some(p) => (
                    blended_price(self.tp_fill.price, self.tp_fill.qty, p, v.filled_qty),
                    false,
                ),
                None => (self.tp_fill.price, true),
            };
            self.stage =
            TpStage::Done(TpOutcome::Flat { exit_price, price_unknown, source: v.source });
            Some(
                JournalRecord {
                    phase: JournalPhase::ExitRetryFinalFill,
                    reason: JournalReason::TpPartialFinalFill,
                    intended_price: Some(self.tp_price),
                    submitted_price: None,
                    filled_price: Some(exit_price),
                    filled_qty: Some(self.remaining as i64),
                    holdings_before: Some(self.remaining as i64),
                    holdings_after: Some(0),
                    resolution: JournalResolution::By(v.source),
                },
            )
        } else {
            let held: u64 = match v.holdings_after {
                Some(left) => left,
                None => self.remaining,
            };
            self.stage = TpStage::Done(TpOutcome::StillRemaining { held });
            Some(
                JournalRecord {
                    phase: JournalPhase::ExitRetryStillRemainingManual,
                    reason: JournalReason::TpPartialStillRemaining,
                    intended_price: Some(self.tp_price),
                    submitted_price: None,
                    filled_price: v.filled_price,
                    filled_qty: Some(v.filled_qty as i64),
                    holdings_before: Some(self.remaining as i64),
                    holdings_after: Some(held as i64),
                    resolution: JournalResolution::By(v.source),
                },
            )
        }
    }

    /// Takes in a reply, and says what the journal records of it.
    pub fn step(&mut self, reply: TpReply) -> (journal: Option<JournalRecord>)
        requires
            old(self).awaits(reply),
            old(self).countable(reply),
        ensures
            *final(self) == old(self).next(reply),
            journal == old(self).recorded(reply),
            final(self).replies_left() < old(self).replies_left(),
    {
        match (self.stage, reply) {
            (TpStage::CancelRest, TpReply::RestCancelled) => {
                self.stage = TpStage::Submit;
                None
            },
            (TpStage::Submit, TpReply::Submitted(SubmitReply::Accepted)) => {
                self.stage = TpStage::Verify;
                None
            },
            (TpStage::Submit, TpReply::Submitted(_)) => {
                self.stage =
                TpStage::Done(TpOutcome::SubmitFailed { remaining: self.remaining });
                Some(
                    JournalRecord {
                        phase: JournalPhase::ExitRetrySubmitFailed,
                        reason: JournalReason::TpPartialSubmitFailed,
                        intended_price: Some(self.tp_price),
                        submitted_price: None,
                        filled_price: Some(self.tp_fill.price),
                        filled_qty: Some(self.tp_fill.qty as i64),
                        holdings_before: Some(self.remaining as i64),
                        holdings_after: None,
                        resolution: JournalResolution::By(ExitResolutionSource::Unresolved),
                    },
                )
            },
            (TpStage::Verify, TpReply::Verified(Some(v))) => self.on_verified(v),
            (TpStage::Verify, TpReply::Verified(None)) => {
                self.stage = TpStage::Done(TpOutcome::VerifyTimedOut);
                None
            },
            _ => None,
        }
    }
}

/// The rest of a take-profit order is reported as sold only where the verification of its sale
/// saw the balance empty.
pub proof fn tp_flat_only_on_empty_balance(flow: TpPartialFlow, reply: TpReply)
    requires
        flow.awaits(reply),
    ensures
        (flow.next(reply).stage matches TpStage::Done(o) && o is Flat) ==> (
        reply matches TpReply::Verified(Some(v)) && v.holdings_after == Some(0u64)),
{
}

/// What is sold at the market is exactly what the take-profit order left.
pub proof fn tp_rest_is_what_was_left(
    tp_price: i64,
    tp_fill: Fill,
    expected_qty: u64,
    can_cancel: bool,
)
    requires
        tp_fill.qty < expected_qty,
    ensures
        tp_fill.qty + TpPartialFlow::begun(tp_price, tp_fill, expected_qty, can_cancel).remaining
            == expected_qty,
{
}

/// A report on a take-profit order counts by its quantity: at least what was expected is a full
/// fill, less is a partial one, nothing is none.
pub proof fn reports_count_by_quantity(report: Option<Fill>, expected_qty: u64)
    requires
        expected_qty > 0,
    ensures
        match tp_fill_of(report, expected_qty) {
            TpFill::Full(fill) => report == Some(fill) && fill.qty >= expected_qty,
            TpFill::Partial(fill) => report == Some(fill) && 0 < fill.qty < expected_qty,
            TpFill::NotYet => report is None || report->0.qty == 0,
        },
{
}

/// A blended price makes up the value of both parts, but for the fraction that is cut off.
pub proof fn blended_price_keeps_the_value(
    first_price: int,
    first_qty: int,
    second_price: int,
    second_qty: int,
)
    requires
        first_price >= 0,
        second_price >= 0,
        first_qty >= 0,
        second_qty >= 0,
        first_qty + second_qty > 0,
    ensures
        ({
            let price = blended(first_price, first_qty, second_price, second_qty);
            let value = first_price * first_qty + second_price * second_qty;
            price * (first_qty + second_qty) <= value < (price + 1) * (first_qty + second_qty)
        }),
{
    let total = first_qty + second_qty;
    let value = first_price * first_qty + second_price * second_qty;
    assert(value >= 0) by (nonlinear_arith)
        requires
            first_price >= 0,
            second_price >= 0,
            first_qty >= 0,
            second_qty >= 0,
            value == first_price * first_qty + second_price * second_qty,
    ;
    assert(value / total * total <= value < (value / total + 1) * total) by (nonlinear_arith)
        requires
            total > 0,
            value >= 0,
    ;
}

/// The rest of a take-profit order is dealt with in this order: it is cancelled, where that can be
/// done; what it left is sold; and that sale is verified.
pub proof fn the_rest_is_sold(
    tp_price: i64,
    tp_fill: Fill,
    expected_qty: u64,
    can_cancel: bool,
)
    requires
        tp_fill.qty < expected_qty,
    ensures
        ({
            let start = TpPartialFlow::begun(tp_price, tp_fill, expected_qty, can_cancel);
            let clear = if can_cancel {
                start.next(TpReply::RestCancelled)
            } else {
                start
            };
            let sent = clear.next(TpReply::Submitted(SubmitReply::Accepted));
            let rest = (expected_qty - tp_fill.qty) as u64;
            &&& can_cancel ==> start.wanted() is CancelRest
            &&& clear.wanted() == (TpRequest::Market { side: OrderSide::Sell, qty: rest })
            &&& sent.wanted() == (TpRequest::Verify { expected_qty: rest, holding_before: rest })
            &&& sent.tp_fill == tp_fill
            &&& sent.remaining == rest
            &&& clear.next(TpReply::Submitted(SubmitReply::Rejected)).stage == TpStage::Done(
                TpOutcome::SubmitFailed { remaining: rest },
            )
            &&& clear.next(TpReply::Submitted(SubmitReply::NetworkError)).stage == TpStage::Done(
                TpOutcome::SubmitFailed { remaining: rest },
            )
        }),
{
}

/// The verification of the rest decides: nothing left is flat, at the price of both parts where
/// the second is known and else at that of the first; anything else is left, as far as the balance
/// shows.
pub proof fn verification_of_the_rest_decides(flow: TpPartialFlow, v: VerifySummary)
    requires
        flow.stage is Verify,
        flow.tp_fill.qty > 0,
        flow.tp_fill.price >= 0,
        v.filled_price matches Some(p) ==> p >= 0,
    ensures
        match (v.holdings_after, flow.next(TpReply::Verified(Some(v))).stage) {
            (None, TpStage::Done(TpOutcome::StillRemaining { held })) => held == flow.remaining,
            (Some(left), TpStage::Done(TpOutcome::StillRemaining { held })) => left > 0 && held
                == left,
            (
                Some(left),
                TpStage::Done(TpOutcome::Flat { exit_price, price_unknown, source }),
            ) => {
                &&& left == 0
                &&& source == v.source
                &&& price_unknown == (v.filled_price is None)
                &&& match v.filled_price {
                    None => exit_price == flow.tp_fill.price,
                    Some(p) => {
                        let total = flow.tp_fill.qty + v.filled_qty;
                        let value = flow.tp_fill.price * flow.tp_fill.qty + p * v.filled_qty;
                        exit_price * total <= value < (exit_price + 1) * total
                    },
                }
            },
            _ => false,
        },
        flow.next(TpReply::Verified(None)).stage == TpStage::Done(TpOutcome::VerifyTimedOut),
{
    if let Some(p) = v.filled_price {
        blended_lies_between(
            flow.tp_fill.price as int,
            flow.tp_fill.qty as int,
            p as int,
            v.filled_qty as int,
        );
        blended_price_keeps_the_value(
            flow.tp_fill.price as int,
            flow.tp_fill.qty as int,
            p as int,
            v.filled_qty as int,
        );
    }
}

/// What the journal says of the rest is what became of it.
pub proof fn tp_journal_is_true(flow: TpPartialFlow, reply: TpReply)
    requires
        flow.awaits(reply),
        flow.recorded(reply) is Some,
    ensures
        ({
            let r = flow.recorded(reply)->0;
            let next = flow.next(reply);
            &&& next.stage is Done
            &&& r.intended_price == Some(flow.tp_price)
            &&& r.holdings_before == Some(flow.remaining as i64)
            &&& r.phase is ExitRetryFinalFill <==> next.stage->Done_0 is Flat
            &&& next.stage->Done_0 matches TpOutcome::Flat { exit_price, source, .. } ==> {
                &&& r.filled_price == Some(exit_price)
                &&& r.filled_qty == Some(flow.remaining as i64)
                &&& r.holdings_after == Some(0i64)
                &&& r.resolution == JournalResolution::By(source)
            }
            &&& next.stage->Done_0 matches TpOutcome::StillRemaining { held } ==> r.holdings_after
                == Some(held as i64)
        }),
{
}

/// A sale of the rest needs a person unless nothing is left or only the verification took too long.
pub proof fn bad_sales_are_for_a_person(outcome: TpOutcome)
    ensures
        outcome is Flat ==> !outcome.for_a_person(),
        outcome is VerifyTimedOut ==> !outcome.for_a_person(),
        !(outcome is Flat) && !(outcome is VerifyTimedOut) ==> outcome.for_a_person(),
{
}

/// Every end of selling the rest is journaled once, under its own reason and with what was known
/// then, except a verification that took too long; and so is no step that is no end.
pub proof fn ends_of_the_sale_are_journaled(flow: TpPartialFlow, reply: TpReply)
    requires
        flow.awaits(reply),
    ensures
        ({
            let next = flow.next(reply);
            let r = flow.recorded(reply)->0;
            &&& !(next.stage is Done) ==> flow.recorded(reply) is None
            &&& next.stage is Done ==> match next.stage->Done_0 {
                TpOutcome::VerifyTimedOut => flow.recorded(reply) is None,
                TpOutcome::Flat { .. } => {
                    &&& flow.recorded(reply) is Some
                    &&& r.reason == JournalReason::TpPartialFinalFill
                    &&& r.submitted_price is None
                },
                TpOutcome::SubmitFailed { .. } => {
                    &&& flow.recorded(reply) is Some
                    &&& r.phase is ExitRetrySubmitFailed
                    &&& r.reason == JournalReason::TpPartialSubmitFailed
                    &&& r.submitted_price is None && r.holdings_after is None
                    &&& r.filled_price == Some(flow.tp_fill.price)
                    &&& r.filled_qty == Some(flow.tp_fill.qty as i64)
                    &&& r.resolution == JournalResolution::By(ExitResolutionSource::Unresolved)
                },
                TpOutcome::StillRemaining { .. } => {
                    &&& flow.recorded(reply) is Some
                    &&& r.phase is ExitRetryStillRemainingManual
                    &&& r.reason == JournalReason::TpPartialStillRemaining
                    &&& r.submitted_price is None
                    &&& reply matches TpReply::Verified(Some(v)) ==> {
                        &&& r.filled_price == v.filled_price
                        &&& r.filled_qty == Some(v.filled_qty as i64)
                        &&& r.resolution == JournalResolution::By(v.source)
                    }
                },
            }
        }),
{
}

} // verus!
