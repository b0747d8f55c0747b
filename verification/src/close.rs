//! Closing a position at the market.
//!
//! A position counts as closed only once the balance was seen to be empty.  What is left after a
//! first sale is sold once more; what is left after that, or a balance that cannot be read, is
//! for a person to deal with.

use crate::clock::TimeOfDay;
use crate::exit::{ExitResolutionSource, ExitTraceMeta, VerifySummary};
use crate::journal::{JournalPhase, JournalReason, JournalRecord, JournalResolution};
use crate::types::{ExitReason, HoldingReply, OrderSide, Position, PositionSide, TradeResult};
use vstd::prelude::*;

verus! {

/// What became of an order that was sent to the broker.
#[derive(Debug, Clone, Copy, PartialEq, Eq, Structural)]
pub enum SubmitReply {
    /// The broker could not be reached.
    NetworkError,
    /// The broker refused the order.
    Rejected,
    /// The broker took the order.
    Accepted,
}

/// How closing a position ended.
#[derive(Debug, Clone, Copy, PartialEq, Eq, Structural)]
pub enum CloseOutcome {
    /// Nothing is left.
    Flat { exit_price: i64, price_unknown: bool, source: ExitResolutionSource },
    /// The order did not reach the market, and the take-profit order is gone: the position has no
    /// protection and a person has to look.
    SubmitFailed,
    /// The verification took too long.
    VerifyTimedOut,
    /// The balance could not be read; selling again might sell twice.
    BalanceUnreadable,
    /// Something is left of a short position.
    ShortRemainder { remaining: u64 },
    /// What was left could not be sold.
    RetrySubmitFailed { remaining: u64 },
    /// Something is left after the second sale.
    StillRemaining { held: u64 },
}

impl CloseOutcome {
    /// Closing ended badly, and nobody but a person can put it right.  A verification that took
    /// too long is for the execution rules to deal with.
    pub open spec fn for_a_person(self) -> bool {
        !(self is Flat || self is VerifyTimedOut)
    }

    /// The trade and its trace, where nothing is left.
    pub fn trade_of(&self, pos: &Position, exit_time: TimeOfDay, reason: ExitReason) -> (r: Option<
        (TradeResult, ExitTraceMeta),
    >)
        ensures
            match *self {
                CloseOutcome::Flat { exit_price, price_unknown, source } => {
                    &&& r matches Some((trade, meta))
                    &&& trade == pos.trade(exit_price, exit_time, reason)
                    &&& meta.fill_price_unknown == price_unknown
                    &&& meta.exit_resolution_source@ == source.name()
                },
                _ => r is None,
            },
    {
        match *self {
            CloseOutcome::Flat { exit_price, price_unknown, source } => Some(
                (
                    pos.closed(exit_price, exit_time, reason),
                    ExitTraceMeta::of(price_unknown, source),
                ),
            ),
            _ => None,
        }
    }
}

/// What is done next.
#[derive(Debug, Clone, Copy, PartialEq, Eq, Structural)]
pub enum CloseStage {
    /// Cancel the take-profit order.
    CancelTp,
    /// Read the balance.
    HoldingBefore,
    /// Send the market order for the whole position.
    Submit,
    /// Verify that order.
    Verify,
    /// Nothing is left but no price is known: read the current one.
    Price,
    /// Send a market order for what is left.
    RetrySubmit,
    /// Verify that order.
    RetryVerify,
    /// Nothing is left after the second sale but no price is known: read the current one.
    RetryPrice,
    /// Closing ended.
    Done(CloseOutcome),
}

/// The reply to what was done.
#[derive(Debug, Clone, Copy, PartialEq, Eq, Structural)]
pub enum CloseReply {
    /// The take-profit order was cancelled, or could not be.
    TpCancelled,
    Holding(HoldingReply),
    Submitted(SubmitReply),
    /// The verification's outcome, or `None` where it took too long.
    Verified(Option<VerifySummary>),
    /// The current price, where it could be read.
    Price(Option<i64>),
}

/// What to do at a stage.
#[derive(Debug, Clone, Copy, PartialEq, Eq, Structural)]
pub enum CloseRequest {
    CancelTp,
    FetchHolding,
    /// Send a market order.
    Market { side: OrderSide, qty: u64 },
    /// Verify the last market order.  `again` tells the second sale from the first.
    Verify { expected_qty: u64, holding_before: u64, again: bool },
    ReadPrice,
    Finish(CloseOutcome),
}

/// Closing one position.
#[derive(Debug, Clone, Copy, PartialEq, Eq, Structural)]
pub struct CloseFlow {
    pub side: PositionSide,
    pub quantity: u64,
    pub entry_price: i64,
    pub reason: ExitReason,
    pub stage: CloseStage,
    /// The balance before the first sale; the position's own quantity where it could not be read.
    pub holding_before: u64,
    /// What the first sale left behind.
    pub remaining: u64,
    /// The quantity that the first verification saw sold.
    pub first_filled: u64,
    /// The verification that found nothing left.
    pub verified: VerifySummary,
}

/// A verification that saw nothing.
pub open spec fn blank_summary() -> VerifySummary {
    VerifySummary {
        filled_qty: 0,
        filled_price: None,
        holdings_after: None,
        source: ExitResolutionSource::Unresolved,
    }
}

impl CloseFlow {
    /// The stages that come after a clean verification hold that verification.
    pub open spec fn valid(self) -> bool {
        match self.stage {
            CloseStage::Price | CloseStage::RetryPrice => self.verified.holdings_after == Some(0u64)
                && self.verified.filled_price is None,
            CloseStage::RetrySubmit | CloseStage::RetryVerify => self.remaining > 0,
            _ => true,
        }
    }

    /// `reply` answers what is done at this stage.
    pub open spec fn awaits(self, reply: CloseReply) -> bool {
        match self.stage {
            CloseStage::CancelTp => reply is TpCancelled,
            CloseStage::HoldingBefore => reply is Holding,
            CloseStage::Submit | CloseStage::RetrySubmit => reply is Submitted,
            CloseStage::Verify | CloseStage::RetryVerify => reply is Verified,
            CloseStage::Price | CloseStage::RetryPrice => reply is Price,
            CloseStage::Done(_) => false,
        }
    }

    /// How many replies can still be asked for.
    pub open spec fn replies_left(self) -> int {
        match self.stage {
            CloseStage::CancelTp => 7,
            CloseStage::HoldingBefore => 6,
            CloseStage::Submit => 5,
            CloseStage::Verify => 4,
            CloseStage::RetrySubmit => 3,
            CloseStage::RetryVerify => 2,
            CloseStage::Price | CloseStage::RetryPrice => 1,
            CloseStage::Done(_) => 0,
        }
    }

    pub open spec fn at(self, stage: CloseStage) -> CloseFlow {
        CloseFlow { stage, ..self }
    }

    pub open spec fn ended(self, outcome: CloseOutcome) -> CloseFlow {
        self.at(CloseStage::Done(outcome))
    }

    /// The start: the take-profit order is cancelled first, where there is one.
    pub open spec fn begun(
        side: PositionSide,
        quantity: u64,
        entry_price: i64,
        reason: ExitReason,
        has_tp: bool,
    ) -> CloseFlow {
        CloseFlow {
            side,
            quantity,
            entry_price,
            reason,
            stage: if has_tp {
                CloseStage::CancelTp
            } else {
                CloseStage::HoldingBefore
            },
            holding_before: quantity,
            remaining: 0,
            first_filled: 0,
            verified: blank_summary(),
        }
    }

    /// After a verification found nothing left: the price is the fill's, or has to be read.
    pub open spec fn emptied(self, v: VerifySummary, price_stage: CloseStage) -> CloseFlow {
        if v.filled_price is Some {
            self.ended(
                CloseOutcome::Flat {
                    exit_price: v.filled_price->0,
                    price_unknown: false,
                    source: v.source,
                },
            )
        } else {
            CloseFlow { verified: v, stage: price_stage, ..self }
        }
    }

    /// After the current price stood in for the fill price.  Without a current price the entry
    /// price stands in.
    pub open spec fn priced(self, got: Option<i64>) -> CloseFlow {
        self.ended(
            CloseOutcome::Flat {
                exit_price: if got is Some {
                    got->0
                } else {
                    self.entry_price
                },
                price_unknown: true,
                source: self.verified.source,
            },
        )
    }

    /// After the first verification.
    pub open spec fn verified_once(self, v: VerifySummary) -> CloseFlow {
        match v.holdings_after {
            None => self.ended(CloseOutcome::BalanceUnreadable),
            Some(0) => self.emptied(v, CloseStage::Price),
            Some(left) => {
                if self.side is Short {
                    self.ended(CloseOutcome::ShortRemainder { remaining: left })
                } else {
                    CloseFlow {
                        remaining: left,
                        first_filled: v.filled_qty,
                        stage: CloseStage::RetrySubmit,
                        ..self
                    }
                }
            },
        }
    }

    /// After the second verification.
    pub open spec fn verified_again(self, v: VerifySummary) -> CloseFlow {
        match v.holdings_after {
            None => self.ended(CloseOutcome::StillRemaining { held: self.remaining }),
            Some(0) => self.emptied(v, CloseStage::RetryPrice),
            Some(left) => self.ended(CloseOutcome::StillRemaining { held: left }),
        }
    }

    /// Closing after a reply.
    pub open spec fn next(self, reply: CloseReply) -> CloseFlow {
        match (self.stage, reply) {
            (CloseStage::CancelTp, CloseReply::TpCancelled) => self.at(CloseStage::HoldingBefore),
            (CloseStage::HoldingBefore, CloseReply::Holding(got)) => CloseFlow {
                holding_before: if got.quantity() is Some {
                    got.quantity()->0
                } else {
                    self.quantity
                },
                stage: CloseStage::Submit,
                ..self
            },
            (CloseStage::Submit, CloseReply::Submitted(got)) => if got is Accepted {
                self.at(CloseStage::Verify)
            } else {
                self.ended(CloseOutcome::SubmitFailed)
            },
            (CloseStage::RetrySubmit, CloseReply::Submitted(got)) => if got is Accepted {
                self.at(CloseStage::RetryVerify)
            } else {
                self.ended(CloseOutcome::RetrySubmitFailed { remaining: self.remaining })
            },
            (CloseStage::Verify, CloseReply::Verified(got)) => if got is Some {
                self.verified_once(got->0)
            } else {
                self.ended(CloseOutcome::VerifyTimedOut)
            },
            (CloseStage::RetryVerify, CloseReply::Verified(got)) => if got is Some {
                self.verified_again(got->0)
            } else {
                self.ended(CloseOutcome::VerifyTimedOut)
            },
            (CloseStage::Price, CloseReply::Price(got)) => self.priced(got),
            (CloseStage::RetryPrice, CloseReply::Price(got)) => self.priced(got),
            _ => self,
        }
    }

    /// What to do at this stage.
    pub open spec fn wanted(self) -> CloseRequest {
        match self.stage {
            CloseStage::CancelTp => CloseRequest::CancelTp,
            CloseStage::HoldingBefore => CloseRequest::FetchHolding,
            CloseStage::Submit => CloseRequest::Market {
                side: if self.side is Long {
                    OrderSide::Sell
                } else {
                    OrderSide::Buy
                },
                qty: self.quantity,
            },
            CloseStage::Verify => CloseRequest::Verify {
                expected_qty: self.quantity,
                holding_before: self.holding_before,
                again: false,
            },
            CloseStage::RetrySubmit => CloseRequest::Market {
                side: OrderSide::Sell,
                qty: self.remaining,
            },
            CloseStage::RetryVerify => CloseRequest::Verify {
                expected_qty: self.remaining,
                holding_before: self.remaining,
                again: true,
            },
            CloseStage::Price | CloseStage::RetryPrice => CloseRequest::ReadPrice,
            CloseStage::Done(outcome) => CloseRequest::Finish(outcome),
        }
    }

    /// What the journal records of a sale that left nothing.
    pub open spec fn fill_record(self, again: bool, v: VerifySummary, exit_price: i64) -> JournalRecord {
        JournalRecord {
            phase: if again {
                JournalPhase::ExitRetryFinalFill
            } else {
                JournalPhase::ExitFinalFill
            },
            reason: if again {
                JournalReason::RetryFinalFill(self.reason)
            } else {
                JournalReason::CloseMarket(self.reason)
            },
            intended_price: Some(self.entry_price),
            submitted_price: None,
            filled_price: Some(exit_price),
            filled_qty: Some(v.filled_qty as i64),
            holdings_before: Some(
                if again {
                    self.remaining as i64
                } else {
                    self.holding_before as i64
                },
            ),
            holdings_after: Some(0),
            resolution: JournalResolution::By(v.source),
        }
    }

    /// What the journal records of a sale that did not settle the matter.
    pub open spec fn trouble_record(
        self,
        phase: JournalPhase,
        reason: JournalReason,
        filled_price: Option<i64>,
        filled_qty: Option<i64>,
        holdings_before: Option<i64>,
        holdings_after: Option<i64>,
        source: ExitResolutionSource,
    ) -> JournalRecord {
        JournalRecord {
            phase,
            reason,
            intended_price: Some(self.entry_price),
            submitted_price: None,
            filled_price,
            filled_qty,
            holdings_before,
            holdings_after,
            resolution: JournalResolution::By(source),
        }
    }

    /// What the journal records when `reply` comes in.
    pub open spec fn recorded(self, reply: CloseReply) -> Option<JournalRecord> {
        match (self.stage, reply) {
            (CloseStage::Submit, CloseReply::Submitted(SubmitReply::NetworkError)) => Some(
                self.trouble_record(
                    JournalPhase::ExitSubmitFailed,
                    JournalReason::CloseNetworkError(self.reason),
                    None,
                    None,
                    Some(self.holding_before as i64),
                    None,
                    ExitResolutionSource::Unresolved,
                ),
            ),
            (CloseStage::Submit, CloseReply::Submitted(SubmitReply::Rejected)) => Some(
                self.trouble_record(
                    JournalPhase::ExitSubmitRejected,
                    JournalReason::CloseRejected(self.reason),
                    None,
                    None,
                    Some(self.holding_before as i64),
                    None,
                    ExitResolutionSource::Unresolved,
                ),
            ),
            (CloseStage::Verify, CloseReply::Verified(Some(v))) => match v.holdings_after {
                None => Some(
                    self.trouble_record(
                        JournalPhase::ExitBalanceLookupFailedManual,
                        JournalReason::BalanceLookupFailed(self.reason),
                        None,
                        Some(v.filled_qty as i64),
                        None,
                        None,
                        v.source,
                    ),
                ),
                Some(0) => if v.filled_price is Some {
                    Some(self.fill_record(false, v, v.filled_price->0))
                } else {
                    None
                },
                Some(_) => None,
            },
            (CloseStage::RetrySubmit, CloseReply::Submitted(got)) => if got is Accepted {
                None
            } else {
                Some(
                    self.trouble_record(
                        JournalPhase::ExitRetrySubmitFailed,
                        JournalReason::RetrySubmitFailed(self.reason),
                        None,
                        Some(self.first_filled as i64),
                        Some(self.remaining as i64),
                        None,
                        ExitResolutionSource::Unresolved,
                    ),
                )
            },
            (CloseStage::RetryVerify, CloseReply::Verified(Some(v))) => if v.holdings_after == Some(
                0u64,
            ) {
                if v.filled_price is Some {
                    Some(self.fill_record(true, v, v.filled_price->0))
                } else {
                    None
                }
            } else {
                Some(
                    self.trouble_record(
                        JournalPhase::ExitRetryStillRemainingManual,
                        JournalReason::RetryStillRemaining(self.reason),
                        v.filled_price,
                        Some(v.filled_qty as i64),
                        Some(self.remaining as i64),
                        Some(
                            if v.holdings_after is Some {
                                v.holdings_after->0 as i64
                            } else {
                                self.remaining as i64
                            },
                        ),
                        v.source,
                    ),
                )
            },
            (CloseStage::Price, CloseReply::Price(got)) => Some(
                self.fill_record(
                    false,
                    self.verified,
                    if got is Some {
                        got->0
                    } else {
                        self.entry_price
                    },
                ),
            ),
            (CloseStage::RetryPrice, CloseReply::Price(got)) => Some(
                self.fill_record(
                    true,
                    self.verified,
                    if got is Some {
                        got->0
                    } else {
                        self.entry_price
                    },
                ),
            ),
            _ => None,
        }
    }

    /// Starts closing a position.
    pub fn begin(
        side: PositionSide,
        quantity: u64,
        entry_price: i64,
        reason: ExitReason,
        has_tp: bool,
    ) -> (r: Self)
        ensures
            r == Self::begun(side, quantity, entry_price, reason, has_tp),
            r.valid(),
    {
        CloseFlow {
            side,
            quantity,
            entry_price,
            reason,
            stage: if has_tp {
                CloseStage::CancelTp
            } else {
                CloseStage::HoldingBefore
            },
            holding_before: quantity,
            remaining: 0,
            first_filled: 0,
            verified: VerifySummary {
                filled_qty: 0,
                filled_price: None,
                holdings_after: None,
                source: ExitResolutionSource::Unresolved,
            },
        }
    }

    /// What to do at this stage.
    pub fn request(&self) -> (r: CloseRequest)
        ensures
            r == self.wanted(),
    {
        match self.stage {
            CloseStage::CancelTp => CloseRequest::CancelTp,
            CloseStage::HoldingBefore => CloseRequest::FetchHolding,
            CloseStage::Submit => CloseRequest::Market {
                side: self.side.closing_order(),
                qty: self.quantity,
            },
            CloseStage::Verify => CloseRequest::Verify {
                expected_qty: self.quantity,
                holding_before: self.holding_before,
                again: false,
            },
            CloseStage::RetrySubmit => CloseRequest::Market {
                side: OrderSide::Sell,
                qty: self.remaining,
            },
            CloseStage::RetryVerify => CloseRequest::Verify {
                expected_qty: self.remaining,
                holding_before: self.remaining,
                again: true,
            },
            CloseStage::Price => CloseRequest::ReadPrice,
            CloseStage::RetryPrice => CloseRequest::ReadPrice,
            CloseStage::Done(outcome) => CloseRequest::Finish(outcome),
        }
    }

    fn fill_note(&self, again: bool, v: VerifySummary, exit_price: i64) -> (r: JournalRecord)
        ensures
            r == self.fill_record(again, v, exit_price),
    {
        JournalRecord {
            phase: if again {
                JournalPhase::ExitRetryFinalFill
            } else {
                JournalPhase::ExitFinalFill
            },
            reason: if again {
                JournalReason::RetryFinalFill(self.reason)
            } else {
                JournalReason::CloseMarket(self.reason)
            },
            intended_price: Some(self.entry_price),
            submitted_price: None,
            filled_price: Some(exit_price),
            filled_qty: Some(v.filled_qty as i64),
            holdings_before: Some(
                if again {
                    self.remaining as i64
                } else {
                    self.holding_before as i64
                },
            ),
            holdings_after: Some(0),
            resolution: JournalResolution::By(v.source),
        }
    }

    fn trouble_note(
        &self,
        phase: JournalPhase,
        reason: JournalReason,
        filled_price: Option<i64>,
        filled_qty: Option<i64>,
        holdings_before: Option<i64>,
        holdings_after: Option<i64>,
        source: ExitResolutionSource,
    ) -> (r: JournalRecord)
        ensures
            r == self.trouble_record(
                phase,
                reason,
                filled_price,
                filled_qty,
                holdings_before,
                holdings_after,
                source,
            ),
    {
        JournalRecord {
            phase,
            reason,
            intended_price: Some(self.entry_price),
            submitted_price: None,
            filled_price,
            filled_qty,
            holdings_before,
            holdings_after,
            resolution: JournalResolution::By(source),
        }
    }

    fn on_submitted(&mut self, got: SubmitReply) -> (journal: Option<JournalRecord>)
        requires
            old(self).stage is Submit,
        ensures
            *final(self) == old(self).next(CloseReply::Submitted(got)),
            journal == old(self).recorded(CloseReply::Submitted(got)),
    {
        match got {
            SubmitReply::Accepted => {
                self.stage = CloseStage::Verify;
                None
            },
            SubmitReply::NetworkError => {
                let note = self.trouble_note(
                    JournalPhase::ExitSubmitFailed,
                    JournalReason::CloseNetworkError(self.reason),
                    None,
                    None,
                    Some(self.holding_before as i64),
                    None,
                    ExitResolutionSource::Unresolved,
                );
                self.stage = CloseStage::Done(CloseOutcome::SubmitFailed);
                Some(note)
            },
            SubmitReply::Rejected => {
                let note = self.trouble_note(
                    JournalPhase::ExitSubmitRejected,
                    JournalReason::CloseRejected(self.reason),
                    None,
                    None,
                    Some(self.holding_before as i64),
                    None,
                    ExitResolutionSource::Unresolved,
                );
                self.stage = CloseStage::Done(CloseOutcome::SubmitFailed);
                Some(note)
            },
        }
    }

    fn on_emptied(&mut self, again: bool, v: VerifySummary) -> (journal: Option<JournalRecord>)
        ensures
            *final(self) == old(self).emptied(
                v,
                if again {
                    CloseStage::RetryPrice
                } else {
                    CloseStage::Price
                },
            ),
            journal == (if v.filled_price is Some {
                Some(old(self).fill_record(again, v, v.filled_price->0))
            } else {
                None
            }),
    {
        match v.filled_price {
            Some(exit_price) => {
                let note = self.fill_note(again, v, exit_price);
                self.stage =
                CloseStage::Done(
                    CloseOutcome::Flat { exit_price, price_unknown: false, source: v.source },
                );
                Some(note)
            },
            None => {
                self.verified = v;
                self.stage = if again {
                    CloseStage::RetryPrice
                } else {
                    CloseStage::Price
                };
                None
            },
        }
    }

    fn on_verified(&mut self, v: VerifySummary) -> (journal: Option<JournalRecord>)
        requires
            old(self).stage is Verify,
        ensures
            *final(self) == old(self).next(CloseReply::Verified(Some(v))),
            journal == old(self).recorded(CloseReply::Verified(Some(v))),
    {
        match v.holdings_after {
            None => {
                let note = self.trouble_note(
                    JournalPhase::ExitBalanceLookupFailedManual,
                    JournalReason::BalanceLookupFailed(self.reason),
                    None,
                    Some(v.filled_qty as i64),
                    None,
                    None,
                    v.source,
                );
                self.stage = CloseStage::Done(CloseOutcome::BalanceUnreadable);
                Some(note)
            },
            Some(0) => self.on_emptied(false, v),
            Some(left) => {
                match self.side {
                    PositionSide::Short => {
                        self.stage =
                        CloseStage::Done(CloseOutcome::ShortRemainder { remaining: left });
                    },
                    PositionSide::Long => {
                        self.remaining = left;
                        self.first_filled = v.filled_qty;
                        self.stage = CloseStage::RetrySubmit;
                    },
                }
                None
            },
        }
    }

    fn on_resubmitted(&mut self, got: SubmitReply) -> (journal: Option<JournalRecord>)
        requires
            old(self).stage is RetrySubmit,
        ensures
            *final(self) == old(self).next(CloseReply::Submitted(got)),
            journal == old(self).recorded(CloseReply::Submitted(got)),
    {
        match got {
            SubmitReply::Accepted => {
                self.stage = CloseStage::RetryVerify;
                None
            },
            _ => {
                let note = self.trouble_note(
                    JournalPhase::ExitRetrySubmitFailed,
                    JournalReason::RetrySubmitFailed(self.reason),
                    None,
                    Some(self.first_filled as i64),
                    Some(self.remaining as i64),
                    None,
                    ExitResolutionSource::Unresolved,
                );
                self.stage =
                CloseStage::Done(CloseOutcome::RetrySubmitFailed { remaining: self.remaining });
                Some(note)
            },
        }
    }

    fn on_reverified(&mut self, v: VerifySummary) -> (journal: Option<JournalRecord>)
        requires
            old(self).stage is RetryVerify,
        ensures
            *final(self) == old(self).next(CloseReply::Verified(Some(v))),
            journal == old(self).recorded(CloseReply::Verified(Some(v))),
    {
        let held: u64 = match v.holdings_after {
            None => self.remaining,
            Some(left) => left,
        };
        if matches!(v.holdings_after, Some(0)) {
            self.on_emptied(true, v)
        } else {
            let note = self.trouble_note(
                JournalPhase::ExitRetryStillRemainingManual,
                JournalReason::RetryStillRemaining(self.reason),
                v.filled_price,
                Some(v.filled_qty as i64),
                Some(self.remaining as i64),
                Some(held as i64),
                v.source,
            );
            self.stage = CloseStage::Done(CloseOutcome::StillRemaining { held });
            Some(note)
        }
    }

    fn on_price(&mut self, again: bool, got: Option<i64>) -> (journal: Option<JournalRecord>)
        requires
            old(self).stage == (if again {
                CloseStage::RetryPrice
            } else {
                CloseStage::Price
            }),
        ensures
            *final(self) == old(self).next(CloseReply::Price(got)),
            journal == old(self).recorded(CloseReply::Price(got)),
    {
        let exit_price: i64 = match got {
            Some(p) => p,
            None => self.entry_price,
        };
        let note = self.fill_note(again, self.verified, exit_price);
        self.stage =
        CloseStage::Done(
            CloseOutcome::Flat { exit_price, price_unknown: true, source: self.verified.source },
        );
        Some(note)
    }

    /// Takes in a reply, and says what the journal records of it.
    pub fn step(&mut self, reply: CloseReply) -> (journal: Option<JournalRecord>)
        requires
            old(self).valid(),
            old(self).awaits(reply),
        ensures
            *final(self) == old(self).next(reply),
            journal == old(self).recorded(reply),
            final(self).valid(),
            final(self).replies_left() < old(self).replies_left(),
    {
        match (self.stage, reply) {
            (CloseStage::CancelTp, CloseReply::TpCancelled) => {
                self.stage = CloseStage::HoldingBefore;
                None
            },
            (CloseStage::HoldingBefore, CloseReply::Holding(got)) => {
                self.holding_before =
                match got.qty() {
                    Some(q) => q,
                    None => self.quantity,
                };
                self.stage = CloseStage::Submit;
                None
            },
            (CloseStage::Submit, CloseReply::Submitted(got)) => self.on_submitted(got),
            (CloseStage::RetrySubmit, CloseReply::Submitted(got)) => self.on_resubmitted(got),
            (CloseStage::Verify, CloseReply::Verified(Some(v))) => self.on_verified(v),
            (CloseStage::RetryVerify, CloseReply::Verified(Some(v))) => self.on_reverified(v),
            (CloseStage::Verify, CloseReply::Verified(None)) => {
                self.stage = CloseStage::Done(CloseOutcome::VerifyTimedOut);
                None
            },
            (CloseStage::RetryVerify, CloseReply::Verified(None)) => {
                self.stage = CloseStage::Done(CloseOutcome::VerifyTimedOut);
                None
            },
            (CloseStage::Price, CloseReply::Price(got)) => self.on_price(false, got),
            (CloseStage::RetryPrice, CloseReply::Price(got)) => self.on_price(true, got),
            _ => None,
        }
    }

    /// Whether the runner is in the middle of selling what a first sale left behind: from the
    /// moment when something is known to be left, until closing ended well or badly.
    pub fn is_partial(&self) -> (r: bool)
        ensures
            r == (self.stage is RetrySubmit || self.stage is RetryVerify || self.stage is RetryPrice
                || (self.stage matches CloseStage::Done(o) && o is ShortRemainder)),
    {
        matches!(
            self.stage,
            CloseStage::RetrySubmit | CloseStage::RetryVerify | CloseStage::RetryPrice
            | CloseStage::Done(CloseOutcome::ShortRemainder { .. })
        )
    }
}

/// Closing after several replies, in their order.
pub open spec fn close_run(flow: CloseFlow, replies: Seq<CloseReply>) -> CloseFlow
    decreases replies.len(),
{
    if replies.len() == 0 {
        flow
    } else {
        close_run(flow, replies.drop_last()).next(replies.last())
    }
}

impl CloseReply {
    /// A verification that saw the balance empty.
    pub open spec fn saw_empty_balance(self) -> bool {
        self matches CloseReply::Verified(Some(v)) && v.holdings_after == Some(0u64)
    }
}

/// Closing has come to stand on an empty balance: it ended well, or waits for a price only.
pub open spec fn stands_on_empty_balance(stage: CloseStage) -> bool {
    match stage {
        CloseStage::Price | CloseStage::RetryPrice => true,
        CloseStage::Done(outcome) => outcome is Flat,
        _ => false,
    }
}

/// Whatever the replies, a position is reported as closed only after a verification saw the
/// balance empty.
pub proof fn flat_only_after_empty_balance(
    side: PositionSide,
    quantity: u64,
    entry_price: i64,
    reason: ExitReason,
    has_tp: bool,
    replies: Seq<CloseReply>,
)
    ensures
        stands_on_empty_balance(
            close_run(
                CloseFlow::begun(side, quantity, entry_price, reason, has_tp),
                replies,
            ).stage,
        ) ==> exists|i: int| 0 <= i < replies.len() && (#[trigger] replies[i]).saw_empty_balance(),
    decreases replies.len(),
{
    if replies.len() > 0 {
        flat_only_after_empty_balance(
            side,
            quantity,
            entry_price,
            reason,
            has_tp,
            replies.drop_last(),
        );
        let before = close_run(
            CloseFlow::begun(side, quantity, entry_price, reason, has_tp),
            replies.drop_last(),
        );
        let last = replies[replies.len() - 1];
        assert(replies.last() == last);
        if stands_on_empty_balance(before.stage) {
            let i = choose|i: int|
                0 <= i < replies.drop_last().len() && (
                #[trigger] replies.drop_last()[i]).saw_empty_balance();
            assert(replies[i] == replies.drop_last()[i]);
        } else if stands_on_empty_balance(before.next(last).stage) {
            assert(last.saw_empty_balance());
        }
    }
}

/// A balance that cannot be read never leads to another order: closing ends, and not well.
pub proof fn unreadable_balance_ends_closing(flow: CloseFlow, v: VerifySummary)
    requires
        flow.stage is Verify || flow.stage is RetryVerify,
        v.holdings_after is None,
    ensures
        flow.next(CloseReply::Verified(Some(v))).wanted() is Finish,
        !stands_on_empty_balance(flow.next(CloseReply::Verified(Some(v))).stage),
{
}

/// How many market orders went out over several replies.
pub open spec fn market_orders(flow: CloseFlow, replies: Seq<CloseReply>) -> int
    decreases replies.len(),
{
    if replies.len() == 0 {
        0
    } else {
        market_orders(flow, replies.drop_last()) + if close_run(
            flow,
            replies.drop_last(),
        ).wanted() is Market && replies.last() is Submitted {
            1int
        } else {
            0
        }
    }
}

/// How many market orders are behind a stage.
spec fn orders_behind(stage: CloseStage) -> int {
    match stage {
        CloseStage::CancelTp | CloseStage::HoldingBefore | CloseStage::Submit => 0,
        CloseStage::Verify | CloseStage::RetrySubmit | CloseStage::Price => 1,
        _ => 2,
    }
}

proof fn orders_are_behind(
    side: PositionSide,
    quantity: u64,
    entry_price: i64,
    reason: ExitReason,
    has_tp: bool,
    replies: Seq<CloseReply>,
)
    ensures
        market_orders(CloseFlow::begun(side, quantity, entry_price, reason, has_tp), replies)
            <= orders_behind(
            close_run(
                CloseFlow::begun(side, quantity, entry_price, reason, has_tp),
                replies,
            ).stage,
        ),
    decreases replies.len(),
{
    if replies.len() > 0 {
        orders_are_behind(side, quantity, entry_price, reason, has_tp, replies.drop_last());
    }
}

/// Whatever the replies, no more than two market orders go out: one for the position, and one
/// for what it left behind.
pub proof fn at_most_two_market_orders(
    side: PositionSide,
    quantity: u64,
    entry_price: i64,
    reason: ExitReason,
    has_tp: bool,
    replies: Seq<CloseReply>,
)
    ensures
        market_orders(CloseFlow::begun(side, quantity, entry_price, reason, has_tp), replies) <= 2,
{
    orders_are_behind(side, quantity, entry_price, reason, has_tp, replies);
}

/// The second market order sells exactly what the balance showed to be left.
pub proof fn second_order_sells_what_is_left(flow: CloseFlow, v: VerifySummary, left: u64)
    requires
        flow.stage is Verify,
        flow.side is Long,
        v.holdings_after == Some(left),
        left > 0,
    ensures
        flow.next(CloseReply::Verified(Some(v))).wanted() == (CloseRequest::Market {
            side: OrderSide::Sell,
            qty: left,
        }),
{
}

/// Closing goes about it in this order: the take-profit order is cancelled, where there is one; the
/// balance is read; the whole position is sold, or bought back where it is short; and that order
/// is verified against the balance that was read, or the position's quantity where none was.
pub proof fn closing_trades_the_whole_position(
    side: PositionSide,
    quantity: u64,
    entry_price: i64,
    reason: ExitReason,
    has_tp: bool,
    held: HoldingReply,
)
    ensures
        ({
            let start = CloseFlow::begun(side, quantity, entry_price, reason, has_tp);
            let clear = if has_tp {
                start.next(CloseReply::TpCancelled)
            } else {
                start
            };
            let read = clear.next(CloseReply::Holding(held));
            let sent = read.next(CloseReply::Submitted(SubmitReply::Accepted));
            &&& has_tp ==> start.wanted() is CancelTp
            &&& clear.wanted() is FetchHolding
            &&& read.wanted() == (CloseRequest::Market {
                side: match side {
                    PositionSide::Long => OrderSide::Sell,
                    PositionSide::Short => OrderSide::Buy,
                },
                qty: quantity,
            })
            &&& sent.wanted() == (CloseRequest::Verify {
                expected_qty: quantity,
                holding_before: match held {
                    HoldingReply::Failed => quantity,
                    HoldingReply::Nothing => 0,
                    HoldingReply::Held { qty, .. } => qty,
                },
                again: false,
            })
            &&& sent.stage is Verify
            &&& sent.side == side
            &&& sent.entry_price == entry_price
            &&& read.next(CloseReply::Submitted(SubmitReply::Rejected)).stage == CloseStage::Done(
                CloseOutcome::SubmitFailed,
            )
            &&& read.next(CloseReply::Submitted(SubmitReply::NetworkError)).stage
                == CloseStage::Done(CloseOutcome::SubmitFailed)
        }),
{
}

/// What the first verification found decides how closing goes on.  A balance that could not be read
/// and what is left of a short position end it; an empty balance ends it at the fill's price, or
/// at the current one where that is missing, or at the entry price where both are; what is left of
/// a long position is sold once more and verified again.
pub proof fn first_verification_decides(flow: CloseFlow, v: VerifySummary, price: Option<i64>)
    requires
        flow.stage is Verify,
    ensures
        ({
            let next = flow.next(CloseReply::Verified(Some(v)));
            match v.holdings_after {
                None => next.stage == CloseStage::Done(CloseOutcome::BalanceUnreadable),
                Some(left) => if left == 0 {
                    match v.filled_price {
                        Some(p) => next.stage == CloseStage::Done(
                            CloseOutcome::Flat {
                                exit_price: p,
                                price_unknown: false,
                                source: v.source,
                            },
                        ),
                        None => next.wanted() is ReadPrice && next.next(
                            CloseReply::Price(price),
                        ).stage == CloseStage::Done(
                            CloseOutcome::Flat {
                                exit_price: match price {
                                    Some(p) => p,
                                    None => flow.entry_price,
                                },
                                price_unknown: true,
                                source: v.source,
                            },
                        ),
                    }
                } else if flow.side is Short {
                    next.stage == CloseStage::Done(CloseOutcome::ShortRemainder { remaining: left })
                } else {
                    &&& next.wanted() == (CloseRequest::Market { side: OrderSide::Sell, qty: left })
                    &&& next.next(CloseReply::Submitted(SubmitReply::Accepted)).wanted() == (
                    CloseRequest::Verify { expected_qty: left, holding_before: left, again: true })
                    &&& next.next(CloseReply::Submitted(SubmitReply::Accepted)).stage is RetryVerify
                    &&& next.next(CloseReply::Submitted(SubmitReply::Rejected)).stage
                        == CloseStage::Done(CloseOutcome::RetrySubmitFailed { remaining: left })
                    &&& next.next(CloseReply::Submitted(SubmitReply::NetworkError)).stage
                        == CloseStage::Done(CloseOutcome::RetrySubmitFailed { remaining: left })
                    &&& next.next(CloseReply::Submitted(SubmitReply::Accepted)).remaining == left
                },
            }
        }),
        flow.next(CloseReply::Verified(None)).stage == CloseStage::Done(
            CloseOutcome::VerifyTimedOut,
        ),
{
}

/// What the second verification found ends closing: well on an empty balance, at the fill's price
/// or one that stands in for it; otherwise with what is left, or was left before where the balance
/// could not be read.
pub proof fn second_verification_ends_closing(
    flow: CloseFlow,
    v: VerifySummary,
    price: Option<i64>,
)
    requires
        flow.stage is RetryVerify,
    ensures
        ({
            let next = flow.next(CloseReply::Verified(Some(v)));
            match (v.holdings_after, v.filled_price) {
                (None, _) => next.stage == CloseStage::Done(
                    CloseOutcome::StillRemaining { held: flow.remaining },
                ),
                (Some(left), filled) => if left > 0 {
                    next.stage == CloseStage::Done(CloseOutcome::StillRemaining { held: left })
                } else if filled is Some {
                    next.stage == CloseStage::Done(
                        CloseOutcome::Flat {
                            exit_price: filled->0,
                            price_unknown: false,
                            source: v.source,
                        },
                    )
                } else {
                    &&& next.wanted() is ReadPrice
                    &&& next.next(CloseReply::Price(price)).stage == CloseStage::Done(
                        CloseOutcome::Flat {
                            exit_price: match price {
                                Some(p) => p,
                                None => flow.entry_price,
                            },
                            price_unknown: true,
                            source: v.source,
                        },
                    )
                },
            }
        }),
        flow.next(CloseReply::Verified(None)).stage == CloseStage::Done(
            CloseOutcome::VerifyTimedOut,
        ),
{
}

/// A person has to look after every end but a good one and one that took too long.
pub proof fn bad_ends_are_for_a_person(outcome: CloseOutcome)
    ensures
        match outcome {
            CloseOutcome::Flat { .. } => !outcome.for_a_person(),
            CloseOutcome::VerifyTimedOut => !outcome.for_a_person(),
            CloseOutcome::SubmitFailed => outcome.for_a_person(),
            CloseOutcome::BalanceUnreadable => outcome.for_a_person(),
            CloseOutcome::ShortRemainder { .. } => outcome.for_a_person(),
            CloseOutcome::RetrySubmitFailed { .. } => outcome.for_a_person(),
            CloseOutcome::StillRemaining { .. } => outcome.for_a_person(),
        },
{
}

/// What the journal says of a sale is what the replies told: a final fill has the price at which
/// closing ended and an empty balance; the rest tells of an end that was not good.
pub proof fn close_journal_is_true(flow: CloseFlow, reply: CloseReply)
    requires
        flow.valid(),
        flow.awaits(reply),
        flow.recorded(reply) is Some,
    ensures
        ({
            let r = flow.recorded(reply)->0;
            let next = flow.next(reply);
            &&& r.intended_price == Some(flow.entry_price)
            &&& r.submitted_price is None
            &&& next.stage is Done
            &&& (r.phase is ExitFinalFill || r.phase is ExitRetryFinalFill) <==> next.stage->Done_0
                is Flat
            &&& next.stage->Done_0 matches CloseOutcome::Flat { exit_price, source, .. } ==> {
                &&& r.filled_price == Some(exit_price)
                &&& r.holdings_after == Some(0i64)
                &&& r.resolution == JournalResolution::By(source)
                &&& r.phase is ExitRetryFinalFill <==> flow.stage is RetryVerify || flow.stage
                    is RetryPrice
                &&& r.holdings_before == Some(
                    if r.phase is ExitRetryFinalFill {
                        flow.remaining as i64
                    } else {
                        flow.holding_before as i64
                    },
                )
                &&& r.filled_qty == Some(
                    match reply {
                        CloseReply::Verified(Some(v)) => v.filled_qty as i64,
                        _ => flow.verified.filled_qty as i64,
                    },
                )
            }
            &&& r.phase is ExitSubmitFailed || r.phase is ExitSubmitRejected ==> next.stage->Done_0
                is SubmitFailed
            &&& r.phase is ExitRetrySubmitFailed ==> next.stage->Done_0 is RetrySubmitFailed
            &&& r.phase is ExitBalanceLookupFailedManual ==> next.stage->Done_0 is BalanceUnreadable
            &&& r.phase is ExitRetryStillRemainingManual ==> next.stage->Done_0 is StillRemaining
        }),
{
}

/// Closing begins with nothing sold and nothing verified, and takes the balance to hold the
/// position until it is read.
pub proof fn closings_begin_with_nothing(
    side: PositionSide,
    quantity: u64,
    entry_price: i64,
    reason: ExitReason,
    has_tp: bool,
)
    ensures
        ({
            let flow = CloseFlow::begun(side, quantity, entry_price, reason, has_tp);
            &&& flow.side == side && flow.quantity == quantity
            &&& flow.entry_price == entry_price && flow.reason == reason
            &&& flow.holding_before == quantity
            &&& flow.remaining == 0 && flow.first_filled == 0
            &&& flow.verified.filled_qty == 0
            &&& flow.verified.filled_price is None
            &&& flow.verified.holdings_after is None
            &&& flow.verified.source == ExitResolutionSource::Unresolved
        }),
{
}

/// What the first order sold is remembered for the second, and nothing else changes it.
pub proof fn first_sale_is_remembered(flow: CloseFlow, reply: CloseReply)
    requires
        flow.valid(),
        flow.awaits(reply),
    ensures
        match (flow.stage, reply) {
            (CloseStage::Verify, CloseReply::Verified(Some(v))) => flow.next(reply).stage
                is RetrySubmit ==> flow.next(reply).first_filled == v.filled_qty,
            _ => flow.next(reply).first_filled == flow.first_filled,
        },
{
}

/// Every end of closing is journaled once, under its own reason and with what was known then: what
/// was sold, what was held before and what is left.  Only a verification that took too long and a
/// short position that is not closed yet leave no record, and neither does a step that is no end.
pub proof fn ends_of_closing_are_journaled(flow: CloseFlow, reply: CloseReply)
    requires
        flow.valid(),
        flow.awaits(reply),
    ensures
        ({
            let next = flow.next(reply);
            let r = flow.recorded(reply)->0;
            let v = match reply {
                CloseReply::Verified(Some(v)) => v,
                _ => flow.verified,
            };
            let again = flow.stage is RetryVerify || flow.stage is RetryPrice;
            &&& !(next.stage is Done) ==> flow.recorded(reply) is None
            &&& next.stage is Done ==> match next.stage->Done_0 {
                CloseOutcome::VerifyTimedOut | CloseOutcome::ShortRemainder { .. } =>
                flow.recorded(reply) is None,
                CloseOutcome::Flat { .. } => flow.recorded(reply) is Some && r.reason == (if again {
                    JournalReason::RetryFinalFill(flow.reason)
                } else {
                    JournalReason::CloseMarket(flow.reason)
                }),
                CloseOutcome::SubmitFailed => {
                    &&& flow.recorded(reply) is Some
                    &&& reply == CloseReply::Submitted(SubmitReply::NetworkError) ==> r.phase
                        is ExitSubmitFailed && r.reason == JournalReason::CloseNetworkError(
                        flow.reason,
                    )
                    &&& reply == CloseReply::Submitted(SubmitReply::Rejected) ==> r.phase
                        is ExitSubmitRejected && r.reason == JournalReason::CloseRejected(
                        flow.reason,
                    )
                    &&& r.filled_price is None && r.filled_qty is None && r.holdings_after is None
                    &&& r.holdings_before == Some(flow.holding_before as i64)
                    &&& r.resolution == JournalResolution::By(ExitResolutionSource::Unresolved)
                },
                CloseOutcome::BalanceUnreadable => {
                    &&& flow.recorded(reply) is Some
                    &&& r.phase is ExitBalanceLookupFailedManual
                    &&& r.reason == JournalReason::BalanceLookupFailed(flow.reason)
                    &&& r.filled_price is None && r.filled_qty == Some(v.filled_qty as i64)
                    &&& r.holdings_before is None && r.holdings_after is None
                    &&& r.resolution == JournalResolution::By(v.source)
                },
                CloseOutcome::RetrySubmitFailed { .. } => {
                    &&& flow.recorded(reply) is Some
                    &&& r.phase is ExitRetrySubmitFailed
                    &&& r.reason == JournalReason::RetrySubmitFailed(flow.reason)
                    &&& r.filled_price is None && r.filled_qty == Some(flow.first_filled as i64)
                    &&& r.holdings_before == Some(flow.remaining as i64)
                    &&& r.holdings_after is None
                    &&& r.resolution == JournalResolution::By(ExitResolutionSource::Unresolved)
                },
                CloseOutcome::StillRemaining { .. } => {
                    &&& flow.recorded(reply) is Some
                    &&& r.phase is ExitRetryStillRemainingManual
                    &&& r.reason == JournalReason::RetryStillRemaining(flow.reason)
                    &&& r.filled_price == v.filled_price
                    &&& r.filled_qty == Some(v.filled_qty as i64)
                    &&& r.holdings_before == Some(flow.remaining as i64)
                    &&& v.holdings_after matches Some(left) ==> r.holdings_after == Some(
                        left as i64,
                    )
                    &&& v.holdings_after is None ==> r.holdings_after == Some(
                        flow.remaining as i64,
                    )
                    &&& r.resolution == JournalResolution::By(v.source)
                },
            }
        }),
{
}

} // verus!
