//! What is written to the execution journal.

use crate::exit::ExitResolutionSource;
use crate::types::ExitReason;
use vstd::prelude::*;

verus! {

/// The step of an execution that a journal record stands for.
#[derive(Debug, Clone, Copy, PartialEq, Eq, Structural)]
pub enum JournalPhase {
    EntrySubmitFailed,
    EntrySubmitRejected,
    EntrySubmitted,
    EntryAcknowledged,
    EntryPartial,
    EntryCancelled,
    EntryFinalFill,
    ExitSubmitFailed,
    ExitSubmitRejected,
    ExitBalanceLookupFailedManual,
    ExitRetrySubmitFailed,
    ExitRetryStillRemainingManual,
    ExitRetryFinalFill,
    ExitFinalFill,
}

/// Why a journal record was written.
#[derive(Debug, Clone, Copy, PartialEq, Eq, Structural)]
pub enum JournalReason {
    SubmitNetworkError,
    BrokerRejected,
    OrderSubmitted,
    BrokerAcknowledged,
    EntryTimeoutPartial,
    CancelFillRacePartial,
    EntryPreemptedCancelled,
    EntryTimeoutCancelled,
    EntryFilled,
    TpFullFill,
    TpPartialSubmitFailed,
    TpPartialStillRemaining,
    TpPartialFinalFill,
    CloseNetworkError(ExitReason),
    CloseRejected(ExitReason),
    BalanceLookupFailed(ExitReason),
    RetrySubmitFailed(ExitReason),
    RetryStillRemaining(ExitReason),
    RetryFinalFill(ExitReason),
    CloseMarket(ExitReason),
}

/// How a journal record says that a fill was established.
#[derive(Debug, Clone, Copy, PartialEq, Eq, Structural)]
pub enum JournalResolution {
    /// Left empty.
    Blank,
    /// Not known.
    Unknown,
    /// By one of the ways in which an exit is verified.
    By(ExitResolutionSource),
}

/// The figures of one journal record.
#[derive(Debug, Clone, Copy, PartialEq, Eq, Structural)]
pub struct JournalRecord {
    pub phase: JournalPhase,
    pub reason: JournalReason,
    pub intended_price: Option<i64>,
    pub submitted_price: Option<i64>,
    pub filled_price: Option<i64>,
    pub filled_qty: Option<i64>,
    pub holdings_before: Option<i64>,
    pub holdings_after: Option<i64>,
    pub resolution: JournalResolution,
}

impl ExitReason {
    /// The name under which an exit reason is stored.
    pub open spec fn name(self) -> Seq<char> {
        match self {
            ExitReason::StopLoss => "StopLoss"@,
            ExitReason::BreakevenStop => "BreakevenStop"@,
            ExitReason::TrailingStop => "TrailingStop"@,
            ExitReason::TakeProfit => "TakeProfit"@,
            ExitReason::TimeStop => "TimeStop"@,
            ExitReason::EndOfDay => "EndOfDay"@,
        }
    }

    /// The name under which an exit reason is stored.
    pub fn label(self) -> (r: &'static str)
        ensures
            r@ == self.name(),
    {
        match self {
            ExitReason::StopLoss => "StopLoss",
            ExitReason::BreakevenStop => "BreakevenStop",
            ExitReason::TrailingStop => "TrailingStop",
            ExitReason::TakeProfit => "TakeProfit",
            ExitReason::TimeStop => "TimeStop",
            ExitReason::EndOfDay => "EndOfDay",
        }
    }
}

impl JournalPhase {
    /// The name under which a phase is stored.
    pub open spec fn name(self) -> Seq<char> {
        match self {
            JournalPhase::EntrySubmitFailed => "entry_submit_failed"@,
            JournalPhase::EntrySubmitRejected => "entry_submit_rejected"@,
            JournalPhase::EntrySubmitted => "entry_submitted"@,
            JournalPhase::EntryAcknowledged => "entry_acknowledged"@,
            JournalPhase::EntryPartial => "entry_partial"@,
            JournalPhase::EntryCancelled => "entry_cancelled"@,
            JournalPhase::EntryFinalFill => "entry_final_fill"@,
            JournalPhase::ExitSubmitFailed => "exit_submit_failed"@,
            JournalPhase::ExitSubmitRejected => "exit_submit_rejected"@,
            JournalPhase::ExitBalanceLookupFailedManual => "exit_balance_lookup_failed_manual"@,
            JournalPhase::ExitRetrySubmitFailed => "exit_retry_submit_failed"@,
            JournalPhase::ExitRetryStillRemainingManual => "exit_retry_still_remaining_manual"@,
            JournalPhase::ExitRetryFinalFill => "exit_retry_final_fill"@,
            JournalPhase::ExitFinalFill => "exit_final_fill"@,
        }
    }

    /// The name under which a phase is stored.
    pub fn label(self) -> (r: &'static str)
        ensures
            r@ == self.name(),
    {
        match self {
            JournalPhase::EntrySubmitFailed => "entry_submit_failed",
            JournalPhase::EntrySubmitRejected => "entry_submit_rejected",
            JournalPhase::EntrySubmitted => "entry_submitted",
            JournalPhase::EntryAcknowledged => "entry_acknowledged",
            JournalPhase::EntryPartial => "entry_partial",
            JournalPhase::EntryCancelled => "entry_cancelled",
            JournalPhase::EntryFinalFill => "entry_final_fill",
            JournalPhase::ExitSubmitFailed => "exit_submit_failed",
            JournalPhase::ExitSubmitRejected => "exit_submit_rejected",
            JournalPhase::ExitBalanceLookupFailedManual => "exit_balance_lookup_failed_manual",
            JournalPhase::ExitRetrySubmitFailed => "exit_retry_submit_failed",
            JournalPhase::ExitRetryStillRemainingManual => "exit_retry_still_remaining_manual",
            JournalPhase::ExitRetryFinalFill => "exit_retry_final_fill",
            JournalPhase::ExitFinalFill => "exit_final_fill",
        }
    }
}

impl JournalReason {
    /// The text under which a reason is stored: a fixed word, or a word and the exit reason.
    pub open spec fn words(self) -> Seq<char> {
        match self {
            JournalReason::SubmitNetworkError => "submit_network_error"@,
            JournalReason::BrokerRejected => "broker_rejected"@,
            JournalReason::OrderSubmitted => "order_submitted"@,
            JournalReason::BrokerAcknowledged => "broker_acknowledged"@,
            JournalReason::EntryTimeoutPartial => "entry_timeout_partial_detected"@,
            JournalReason::CancelFillRacePartial => "cancel_fill_race_partial"@,
            JournalReason::EntryPreemptedCancelled => "entry_preempted_cancelled"@,
            JournalReason::EntryTimeoutCancelled => "entry_timeout_cancelled"@,
            JournalReason::EntryFilled => "execute_entry_filled"@,
            JournalReason::TpFullFill => "tp_full_fill"@,
            JournalReason::TpPartialSubmitFailed => "tp_partial_retry_submit_failed"@,
            JournalReason::TpPartialStillRemaining => "tp_partial_retry_still_remaining"@,
            JournalReason::TpPartialFinalFill => "tp_partial_retry_final_fill"@,
            JournalReason::CloseNetworkError(why) => "close_market_network_error:"@ + why.name(),
            JournalReason::CloseRejected(why) => "close_market_rejected:"@ + why.name(),
            JournalReason::BalanceLookupFailed(why) => "balance_lookup_failed:"@ + why.name(),
            JournalReason::RetrySubmitFailed(why) => "retry_submit_failed:"@ + why.name(),
            JournalReason::RetryStillRemaining(why) => "retry_still_remaining:"@ + why.name(),
            JournalReason::RetryFinalFill(why) => "retry_final_fill:"@ + why.name(),
            JournalReason::CloseMarket(why) => "close_market:"@ + why.name(),
        }
    }

    /// The text under which a reason is stored.
    pub fn text(self) -> (r: String)
        ensures
            r@ == self.words(),
    {
        let (head, why): (&'static str, Option<ExitReason>) = match self {
            JournalReason::SubmitNetworkError => ("submit_network_error", None),
            JournalReason::BrokerRejected => ("broker_rejected", None),
            JournalReason::OrderSubmitted => ("order_submitted", None),
            JournalReason::BrokerAcknowledged => ("broker_acknowledged", None),
            JournalReason::EntryTimeoutPartial => ("entry_timeout_partial_detected", None),
            JournalReason::CancelFillRacePartial => ("cancel_fill_race_partial", None),
            JournalReason::EntryPreemptedCancelled => ("entry_preempted_cancelled", None),
            JournalReason::EntryTimeoutCancelled => ("entry_timeout_cancelled", None),
            JournalReason::EntryFilled => ("execute_entry_filled", None),
            JournalReason::TpFullFill => ("tp_full_fill", None),
            JournalReason::TpPartialSubmitFailed => ("tp_partial_retry_submit_failed", None),
            JournalReason::TpPartialStillRemaining => ("tp_partial_retry_still_remaining", None),
            JournalReason::TpPartialFinalFill => ("tp_partial_retry_final_fill", None),
            JournalReason::CloseNetworkError(why) => ("close_market_network_error:", Some(why)),
            JournalReason::CloseRejected(why) => ("close_market_rejected:", Some(why)),
            JournalReason::BalanceLookupFailed(why) => ("balance_lookup_failed:", Some(why)),
            JournalReason::RetrySubmitFailed(why) => ("retry_submit_failed:", Some(why)),
            JournalReason::RetryStillRemaining(why) => ("retry_still_remaining:", Some(why)),
            JournalReason::RetryFinalFill(why) => ("retry_final_fill:", Some(why)),
            JournalReason::CloseMarket(why) => ("close_market:", Some(why)),
        };
        match why {
            None => head.to_owned(),
            Some(w) => head.to_owned().concat(w.label()),
        }
    }
}

impl JournalResolution {
    /// The name under which a resolution is stored.
    pub open spec fn name(self) -> Seq<char> {
        match self {
            JournalResolution::Blank => ""@,
            JournalResolution::Unknown => "unknown"@,
            JournalResolution::By(source) => source.name(),
        }
    }

    /// The name under which a resolution is stored.
    pub fn label(self) -> (r: &'static str)
        ensures
            r@ == self.name(),
    {
        match self {
            JournalResolution::Blank => "",
            JournalResolution::Unknown => "unknown",
            JournalResolution::By(source) => source.label(),
        }
    }
}

/// Two exit reasons with the same name are the same reason.
pub proof fn exit_reason_names_are_distinct(a: ExitReason, b: ExitReason)
    requires
        a.name() == b.name(),
    ensures
        a == b,
{
    reveal_strlit("StopLoss");
    reveal_strlit("BreakevenStop");
    reveal_strlit("TrailingStop");
    reveal_strlit("TakeProfit");
    reveal_strlit("TimeStop");
    reveal_strlit("EndOfDay");
    assert("StopLoss"@.len() == 8 && "TimeStop"@.len() == 8 && "EndOfDay"@.len() == 8);
    assert("BreakevenStop"@.len() == 13 && "TrailingStop"@.len() == 12 && "TakeProfit"@.len()
        == 10);
    assert("StopLoss"@[0] == 'S' && "TimeStop"@[0] == 'T' && "EndOfDay"@[0] == 'E');
}

/// The journal says for which reason a position was to be closed: the reason's name comes last,
/// behind a colon.
pub proof fn close_records_end_with_the_reason(r: JournalReason, why: ExitReason)
    requires
        r == JournalReason::CloseNetworkError(why) || r == JournalReason::CloseRejected(why) || r
            == JournalReason::BalanceLookupFailed(why) || r == JournalReason::RetrySubmitFailed(why)
            || r == JournalReason::RetryStillRemaining(why) || r == JournalReason::RetryFinalFill(
            why,
        ) || r == JournalReason::CloseMarket(why),
    ensures
        ({
            let w = r.words();
            let n = why.name();
            &&& w.len() > n.len()
            &&& w.subrange(w.len() - n.len(), w.len() as int) == n
            &&& w[w.len() - n.len() - 1] == ':'
        }),
{
    reveal_strlit("close_market_network_error:");
    reveal_strlit("close_market_rejected:");
    reveal_strlit("balance_lookup_failed:");
    reveal_strlit("retry_submit_failed:");
    reveal_strlit("retry_still_remaining:");
    reveal_strlit("retry_final_fill:");
    reveal_strlit("close_market:");
    let w = r.words();
    let n = why.name();
    assert(w.subrange(w.len() - n.len(), w.len() as int) =~= n);
    assert("close_market_network_error:"@[26] == ':');
    assert("close_market_rejected:"@[21] == ':');
    assert("balance_lookup_failed:"@[21] == ':');
    assert("retry_submit_failed:"@[19] == ':');
    assert("retry_still_remaining:"@[21] == ':');
    assert("retry_final_fill:"@[16] == ':');
    assert("close_market:"@[12] == ':');
}

} // verus!
