//! What a restart makes of the position that it finds saved.

use crate::execution_state::ExecutionState;
use crate::exit::ExitResolutionSource;
use crate::position_lock::{LockModel, PositionLockState};
use crate::records::{
    build_restart_restored_position, or_blank, resolve_restart_entry_price, restart_entry_price,
    protected_by, restored_like, text_or_blank, Bracket,
};
use crate::runner_state::{RunnerPhase, RunnerState};
use crate::text::same_text;
use crate::types::{ActivePosition, Fill, HoldingReply, Position, PositionSide};
use vstd::prelude::*;
use vstd::string::*;

verus! {

/// How long the balance takes to show that an entry order was cancelled.
pub const ENTRY_CANCEL_SETTLE_MS: u64 = 2_000;

/// How long the balance takes to show that a take-profit order was cancelled.
pub const TP_CANCEL_SETTLE_MS: u64 = 3_000;

/// What was going on when the record was written.
#[derive(Debug, Clone, Copy, PartialEq, Eq, Structural)]
pub enum SavedKind {
    /// The position was being closed.
    ExitUnderWay,
    /// The entry order was out.
    EntryUnderWay,
    /// The position was open.
    Settled,
}

/// What the decisions of a restart read of a saved record.
#[derive(Debug, Clone, Copy, PartialEq, Eq, Structural)]
pub struct SavedFacts {
    pub kind: SavedKind,
    pub quantity: i64,
    pub entry_price: i64,
    pub intended_price: i64,
    pub take_profit: i64,
    /// The entry order's number is known.
    pub has_entry_order: bool,
    /// The exchange's branch of the entry order is known.
    pub has_entry_orgno: bool,
    /// A take-profit order was out.
    pub has_tp: bool,
    pub manual: bool,
}

impl SavedFacts {
    /// The quantity that was saved; less than nothing counts as nothing.
    pub open spec fn saved_qty(self) -> u64 {
        if self.quantity < 0 {
            0
        } else {
            self.quantity as u64
        }
    }

    fn held_qty(&self) -> (r: u64)
        ensures
            r == self.saved_qty(),
    {
        if self.quantity < 0 {
            0
        } else {
            self.quantity as u64
        }
    }

    /// The facts of a record.
    pub open spec fn facts_of(saved: ActivePosition) -> SavedFacts {
        SavedFacts {
            kind: if saved.execution_state@ == "exit_pending"@ || saved.execution_state@
                == "exit_partial"@ {
                SavedKind::ExitUnderWay
            } else if saved.execution_state@ == "entry_pending"@ {
                SavedKind::EntryUnderWay
            } else {
                SavedKind::Settled
            },
            quantity: saved.quantity,
            entry_price: saved.entry_price,
            intended_price: saved.intended(),
            take_profit: saved.take_profit,
            has_entry_order: saved.pending_entry_order_no@.len() > 0,
            has_entry_orgno: saved.pending_entry_krx_orgno@.len() > 0,
            has_tp: saved.tp_order_no@.len() > 0,
            manual: saved.manual_intervention_required,
        }
    }

    /// The facts of a record.
    pub fn of(saved: &ActivePosition) -> (r: SavedFacts)
        ensures
            r == SavedFacts::facts_of(*saved),
    {
        let state: &str = saved.execution_state.as_str();
        let kind: SavedKind = if same_text(state, "exit_pending") || same_text(
            state,
            "exit_partial",
        ) {
            SavedKind::ExitUnderWay
        } else if same_text(state, "entry_pending") {
            SavedKind::EntryUnderWay
        } else {
            SavedKind::Settled
        };
        SavedFacts {
            kind,
            quantity: saved.quantity,
            entry_price: saved.entry_price,
            intended_price: saved.intended_price(),
            take_profit: saved.take_profit,
            has_entry_order: saved.pending_entry_order_no.as_str().unicode_len() > 0,
            has_entry_orgno: saved.pending_entry_krx_orgno.as_str().unicode_len() > 0,
            has_tp: saved.tp_order_no.as_str().unicode_len() > 0,
            manual: saved.manual_intervention_required,
        }
    }
}

/// What became of a pending entry whose state could not be established.
#[derive(Debug, Clone, Copy, PartialEq, Eq, Structural)]
pub enum EntryTrouble {
    BalanceUnreadable,
    CancelFailed,
    RecheckUnreadable,
}

/// How a restart ends.
#[derive(Debug, Clone, Copy, PartialEq, Eq, Structural)]
pub enum RestartOutcome {
    /// Nothing was saved and nothing is held: leftover orders were cancelled, as far as possible.
    OrphansCancelled { fallback: bool, complete: bool },
    /// Nothing was saved, but stock is held: its orders stay, and a person has to look.
    OrphanHolding { fallback: bool, qty: u64, avg: Option<i64> },
    /// Nothing was saved and the balance cannot be read: a person has to look.
    OrphanUnknown { fallback: bool },
    /// The exit was completed meanwhile.
    ExitFlat,
    /// The exit is incomplete, or that cannot be told: a person has to look.
    ExitManual { qty: u64, seen: bool },
    /// The entry was filled after all: a person has to look.  `race`: while it was cancelled.
    EntryManual { qty: u64, entry_price: i64, race: bool },
    /// The entry came to nothing.
    EntryCleared { cancelled: bool },
    /// What became of the entry cannot be told: a person has to look.
    EntryUnknown { why: EntryTrouble },
    /// The position was closed by its take-profit order meanwhile: the balance holds none of it.
    Phantom,
    /// The take-profit order could not be cancelled and the balance cannot be read, so that it
    /// cannot be told whether the position is still there: a person has to look.
    OpenUnknown { qty: u64 },
    /// The position is open and waits for a person, as before.
    ManualKept { tp: Option<i64> },
    /// The position is open and is managed again.
    Reopened { tp: Option<i64> },
}

/// Where a restart stands.
#[derive(Debug, Clone, Copy, PartialEq, Eq, Structural)]
pub enum RestartStage {
    Load,
    OrphanHolding { fallback: bool },
    OrphanCancel { fallback: bool },
    ExitHolding,
    EntryExecution,
    EntryHolding,
    EntryCancel,
    EntryRecheck,
    TpCancel,
    StockCheck,
    TpPlace,
    Done(RestartOutcome),
}

/// What came back of the saved record.
#[derive(Debug, Clone, Copy, PartialEq, Eq, Structural)]
pub enum SavedReply {
    /// There is no database.
    NoStore,
    /// The database cannot be read.
    Unreadable,
    Missing,
    Found(SavedFacts),
}

/// What a restart waits for.
#[derive(Debug, Clone, Copy, PartialEq, Eq, Structural)]
pub enum RestartReply {
    Saved(SavedReply),
    Execution(Option<Fill>),
    Holding(HoldingReply),
    /// The broker took the cancellation.
    Cancelled(bool),
    /// The price at which the new take-profit order stands.
    TpPlaced(Option<i64>),
}

/// What is to be done next.
#[derive(Debug, Clone, Copy, PartialEq, Eq, Structural)]
pub enum RestartRequest {
    LoadSaved,
    QueryEntryExecution,
    /// Read the balance, after a pause.
    FetchHolding { after_ms: u64 },
    CancelEntryOrder,
    CancelTpOrder,
    /// Cancel every order that is out.  `fallback`: because no record could be read.
    CancelAllOrders { fallback: bool },
    PlaceTp { price: i64, qty: u64, after_ms: u64 },
    Finished(RestartOutcome),
}

/// A restart under way.
#[derive(Debug, Clone, Copy, PartialEq, Eq, Structural)]
pub struct RestartFlow {
    pub stage: RestartStage,
    /// The saved record, once it is read.
    pub saved: Option<SavedFacts>,
    /// The fill that the broker reports of the pending entry.
    pub fill: Option<Fill>,
    /// The old take-profit order was cancelled just now, and the balance may lag behind.
    pub settling: bool,
}

impl RestartFlow {
    /// A restart that has not read anything yet.
    pub open spec fn begun() -> RestartFlow {
        RestartFlow { stage: RestartStage::Load, saved: None, fill: None, settling: false }
    }

    /// The stages behind the saved record come only with a record of their kind.
    pub open spec fn valid(self) -> bool {
        match self.stage {
            RestartStage::ExitHolding => self.saved matches Some(s) && s.kind is ExitUnderWay,
            RestartStage::EntryExecution | RestartStage::EntryHolding | RestartStage::EntryCancel
            | RestartStage::EntryRecheck => self.saved matches Some(s) && s.kind is EntryUnderWay,
            RestartStage::TpCancel | RestartStage::StockCheck | RestartStage::TpPlace =>
            self.saved matches Some(s) && s.kind is Settled,
            _ => true,
        }
    }

    /// Whether a reply is the one that is waited for.
    pub open spec fn awaits(self, reply: RestartReply) -> bool {
        match self.stage {
            RestartStage::Load => reply is Saved,
            RestartStage::OrphanHolding { .. } | RestartStage::ExitHolding
            | RestartStage::EntryHolding | RestartStage::EntryRecheck | RestartStage::StockCheck =>
            reply is Holding,
            RestartStage::OrphanCancel { .. } | RestartStage::EntryCancel | RestartStage::TpCancel =>
            reply is Cancelled,
            RestartStage::EntryExecution => reply is Execution,
            RestartStage::TpPlace => reply is TpPlaced,
            RestartStage::Done(_) => false,
        }
    }

    /// At another stage.
    pub open spec fn at(self, stage: RestartStage) -> RestartFlow {
        RestartFlow { stage, ..self }
    }

    /// The price at which a pending entry is taken to have been filled.
    pub open spec fn entered_at(self, avg: Option<i64>) -> i64 {
        restart_entry_price(
            avg,
            match self.fill {
                Some(f) => Some(f.price),
                None => None,
            },
            self.saved->0.entry_price,
        )
    }

    /// What the saved record leads to.
    pub open spec fn after_saved(self, reply: SavedReply) -> RestartFlow {
        match reply {
            SavedReply::NoStore | SavedReply::Unreadable => self.at(
                RestartStage::OrphanHolding { fallback: true },
            ),
            SavedReply::Missing => self.at(RestartStage::OrphanHolding { fallback: false }),
            SavedReply::Found(s) => {
                let found = RestartFlow { saved: Some(s), ..self };
                found.at(
                    match s.kind {
                        SavedKind::ExitUnderWay => RestartStage::ExitHolding,
                        SavedKind::EntryUnderWay => if s.has_entry_order {
                            RestartStage::EntryExecution
                        } else {
                            RestartStage::EntryHolding
                        },
                        SavedKind::Settled => if s.has_tp {
                            RestartStage::TpCancel
                        } else {
                            RestartStage::TpPlace
                        },
                    },
                )
            },
        }
    }

    /// What the balance leads to.
    pub open spec fn after_holding(self, holding: HoldingReply) -> RestartFlow {
        match self.stage {
            RestartStage::OrphanHolding { fallback } => match holding {
                HoldingReply::Nothing => self.at(RestartStage::OrphanCancel { fallback }),
                HoldingReply::Held { qty, avg } => self.at(
                    RestartStage::Done(RestartOutcome::OrphanHolding { fallback, qty, avg }),
                ),
                HoldingReply::Failed => self.at(
                    RestartStage::Done(RestartOutcome::OrphanUnknown { fallback }),
                ),
            },
            RestartStage::ExitHolding => self.at(
                RestartStage::Done(
                    match holding.quantity() {
                        Some(0) => RestartOutcome::ExitFlat,
                        Some(qty) => RestartOutcome::ExitManual { qty, seen: true },
                        None => RestartOutcome::ExitManual {
                            qty: self.saved->0.saved_qty(),
                            seen: false,
                        },
                    },
                ),
            ),
            RestartStage::EntryHolding => match holding {
                HoldingReply::Failed => self.at(
                    RestartStage::Done(
                        RestartOutcome::EntryUnknown { why: EntryTrouble::BalanceUnreadable },
                    ),
                ),
                HoldingReply::Held { qty, avg } if qty > 0 => self.at(
                    RestartStage::Done(
                        RestartOutcome::EntryManual {
                            qty,
                            entry_price: self.entered_at(avg),
                            race: false,
                        },
                    ),
                ),
                _ => if self.saved->0.has_entry_order && self.saved->0.has_entry_orgno {
                    self.at(RestartStage::EntryCancel)
                } else {
                    self.at(
                        RestartStage::Done(RestartOutcome::EntryCleared { cancelled: false }),
                    )
                },
            },
            RestartStage::EntryRecheck => self.at(
                RestartStage::Done(
                    match holding {
                        HoldingReply::Failed => RestartOutcome::EntryUnknown {
                            why: EntryTrouble::RecheckUnreadable,
                        },
                        HoldingReply::Held { qty, avg } if qty > 0 => RestartOutcome::EntryManual {
                            qty,
                            entry_price: self.entered_at(avg),
                            race: true,
                        },
                        _ => RestartOutcome::EntryCleared { cancelled: true },
                    },
                ),
            ),
            RestartStage::StockCheck => match holding {
                HoldingReply::Held { qty, .. } if qty > 0 => RestartFlow {
                    stage: RestartStage::TpPlace,
                    settling: false,
                    ..self
                },
                HoldingReply::Failed => self.at(
                    RestartStage::Done(
                        RestartOutcome::OpenUnknown { qty: self.saved->0.saved_qty() },
                    ),
                ),
                _ => self.at(RestartStage::Done(RestartOutcome::Phantom)),
            },
            _ => self,
        }
    }

    /// What a cancellation leads to.
    pub open spec fn after_cancel(self, taken: bool) -> RestartFlow {
        match self.stage {
            RestartStage::OrphanCancel { fallback } => self.at(
                RestartStage::Done(RestartOutcome::OrphansCancelled { fallback, complete: taken }),
            ),
            RestartStage::EntryCancel => if taken {
                self.at(RestartStage::EntryRecheck)
            } else {
                self.at(
                    RestartStage::Done(
                        RestartOutcome::EntryUnknown { why: EntryTrouble::CancelFailed },
                    ),
                )
            },
            RestartStage::TpCancel => RestartFlow {
                stage: if taken {
                    RestartStage::TpPlace
                } else {
                    RestartStage::StockCheck
                },
                settling: true,
                ..self
            },
            _ => self,
        }
    }

    /// What a reply leads to.
    pub open spec fn next(self, reply: RestartReply) -> RestartFlow {
        match reply {
            RestartReply::Saved(s) => self.after_saved(s),
            RestartReply::Execution(fill) => RestartFlow {
                stage: RestartStage::EntryHolding,
                fill,
                ..self
            },
            RestartReply::Holding(h) => self.after_holding(h),
            RestartReply::Cancelled(taken) => self.after_cancel(taken),
            RestartReply::TpPlaced(tp) => self.at(
                RestartStage::Done(
                    if self.saved->0.manual {
                        RestartOutcome::ManualKept { tp }
                    } else {
                        RestartOutcome::Reopened { tp }
                    },
                ),
            ),
        }
    }

    /// What is to be done at a stage.
    pub open spec fn wanted(self) -> RestartRequest {
        match self.stage {
            RestartStage::Load => RestartRequest::LoadSaved,
            RestartStage::OrphanHolding { .. } | RestartStage::ExitHolding
            | RestartStage::EntryHolding => RestartRequest::FetchHolding { after_ms: 0 },
            RestartStage::EntryRecheck => RestartRequest::FetchHolding {
                after_ms: ENTRY_CANCEL_SETTLE_MS,
            },
            RestartStage::StockCheck => RestartRequest::FetchHolding {
                after_ms: TP_CANCEL_SETTLE_MS,
            },
            RestartStage::OrphanCancel { fallback } => RestartRequest::CancelAllOrders { fallback },
            RestartStage::EntryCancel => RestartRequest::CancelEntryOrder,
            RestartStage::TpCancel => RestartRequest::CancelTpOrder,
            RestartStage::EntryExecution => RestartRequest::QueryEntryExecution,
            RestartStage::TpPlace => RestartRequest::PlaceTp {
                price: self.saved->0.take_profit,
                qty: self.saved->0.quantity as u64,
                after_ms: if self.settling {
                    TP_CANCEL_SETTLE_MS
                } else {
                    0
                },
            },
            RestartStage::Done(outcome) => RestartRequest::Finished(outcome),
        }
    }

    /// A restart that has not read anything yet.
    pub fn begin() -> (r: RestartFlow)
        ensures
            r == RestartFlow::begun(),
            r.valid(),
    {
        RestartFlow { stage: RestartStage::Load, saved: None, fill: None, settling: false }
    }

    /// What is to be done next.
    pub fn request(&self) -> (r: RestartRequest)
        requires
            self.valid(),
        ensures
            r == self.wanted(),
    {
        match self.stage {
            RestartStage::Load => RestartRequest::LoadSaved,
            RestartStage::OrphanHolding { .. } | RestartStage::ExitHolding
            | RestartStage::EntryHolding => RestartRequest::FetchHolding { after_ms: 0 },
            RestartStage::EntryRecheck => RestartRequest::FetchHolding {
                after_ms: ENTRY_CANCEL_SETTLE_MS,
            },
            RestartStage::StockCheck => RestartRequest::FetchHolding {
                after_ms: TP_CANCEL_SETTLE_MS,
            },
            RestartStage::OrphanCancel { fallback } => RestartRequest::CancelAllOrders { fallback },
            RestartStage::EntryCancel => RestartRequest::CancelEntryOrder,
            RestartStage::TpCancel => RestartRequest::CancelTpOrder,
            RestartStage::EntryExecution => RestartRequest::QueryEntryExecution,
            RestartStage::TpPlace => {
                let s: SavedFacts = self.saved.unwrap();
                RestartRequest::PlaceTp {
                    price: s.take_profit,
                    qty: s.quantity as u64,
                    after_ms: if self.settling {
                        TP_CANCEL_SETTLE_MS
                    } else {
                        0
                    },
                }
            },
            RestartStage::Done(outcome) => RestartRequest::Finished(outcome),
        }
    }

    fn entry_price_with(&self, avg: Option<i64>) -> (r: i64)
        requires
            self.saved is Some,
        ensures
            r == self.entered_at(avg),
    {
        let fill: Option<i64> = match self.fill {
            Some(f) => Some(f.price),
            None => None,
        };
        resolve_restart_entry_price(avg, fill, self.saved.unwrap().entry_price)
    }

    fn on_saved(&mut self, reply: SavedReply)
        ensures
            *final(self) == old(self).after_saved(reply),
    {
        match reply {
            SavedReply::NoStore | SavedReply::Unreadable => {
                self.stage = RestartStage::OrphanHolding { fallback: true };
            },
            SavedReply::Missing => {
                self.stage = RestartStage::OrphanHolding { fallback: false };
            },
            SavedReply::Found(s) => {
                self.saved = Some(s);
                self.stage =
                match s.kind {
                    SavedKind::ExitUnderWay => RestartStage::ExitHolding,
                    SavedKind::EntryUnderWay => if s.has_entry_order {
                        RestartStage::EntryExecution
                    } else {
                        RestartStage::EntryHolding
                    },
                    SavedKind::Settled => if s.has_tp {
                        RestartStage::TpCancel
                    } else {
                        RestartStage::TpPlace
                    },
                };
            },
        }
    }

    fn on_pending_entry(&self, holding: HoldingReply, again: bool) -> (r: RestartStage)
        requires
            self.valid(),
            self.stage is EntryHolding || self.stage is EntryRecheck,
            again == (self.stage is EntryRecheck),
        ensures
            self.at(r) == self.after_holding(holding),
    {
        match holding {
            HoldingReply::Failed => RestartStage::Done(
                RestartOutcome::EntryUnknown {
                    why: if again {
                        EntryTrouble::RecheckUnreadable
                    } else {
                        EntryTrouble::BalanceUnreadable
                    },
                },
            ),
            HoldingReply::Held { qty, avg } if qty > 0 => RestartStage::Done(
                RestartOutcome::EntryManual {
                    qty,
                    entry_price: self.entry_price_with(avg),
                    race: again,
                },
            ),
            _ => {
                let s: SavedFacts = self.saved.unwrap();
                if !again && s.has_entry_order && s.has_entry_orgno {
                    RestartStage::EntryCancel
                } else {
                    RestartStage::Done(RestartOutcome::EntryCleared { cancelled: again })
                }
            },
        }
    }

    fn on_holding(&mut self, holding: HoldingReply)
        requires
            old(self).valid(),
            old(self).awaits(RestartReply::Holding(holding)),
        ensures
            *final(self) == old(self).after_holding(holding),
    {
        match self.stage {
            RestartStage::OrphanHolding { fallback } => {
                self.stage =
                match holding {
                    HoldingReply::Nothing => RestartStage::OrphanCancel { fallback },
                    HoldingReply::Held { qty, avg } => RestartStage::Done(
                        RestartOutcome::OrphanHolding { fallback, qty, avg },
                    ),
                    HoldingReply::Failed => RestartStage::Done(
                        RestartOutcome::OrphanUnknown { fallback },
                    ),
                };
            },
            RestartStage::ExitHolding => {
                let outcome: RestartOutcome = match holding.qty() {
                    Some(qty) => if qty == 0 {
                        RestartOutcome::ExitFlat
                    } else {
                        RestartOutcome::ExitManual { qty, seen: true }
                    },
                    None => RestartOutcome::ExitManual {
                        qty: self.saved.unwrap().held_qty(),
                        seen: false,
                    },
                };
                self.stage = RestartStage::Done(outcome);
            },
            RestartStage::EntryHolding => {
                self.stage = self.on_pending_entry(holding, false);
            },
            RestartStage::EntryRecheck => {
                self.stage = self.on_pending_entry(holding, true);
            },
            RestartStage::StockCheck => match holding {
                HoldingReply::Held { qty, .. } if qty > 0 => {
                    self.stage = RestartStage::TpPlace;
                    self.settling = false;
                },
                HoldingReply::Failed => {
                    let qty: u64 = self.saved.unwrap().held_qty();
                    self.stage = RestartStage::Done(RestartOutcome::OpenUnknown { qty });
                },
                _ => {
                    self.stage = RestartStage::Done(RestartOutcome::Phantom);
                },
            },
            _ => {},
        }
    }

    fn on_cancel(&mut self, taken: bool)
        ensures
            *final(self) == old(self).after_cancel(taken),
    {
        match self.stage {
            RestartStage::OrphanCancel { fallback } => {
                self.stage =
                RestartStage::Done(RestartOutcome::OrphansCancelled { fallback, complete: taken });
            },
            RestartStage::EntryCancel => {
                self.stage =
                if taken {
                    RestartStage::EntryRecheck
                } else {
                    RestartStage::Done(
                        RestartOutcome::EntryUnknown { why: EntryTrouble::CancelFailed },
                    )
                };
            },
            RestartStage::TpCancel => {
                self.stage =
                if taken {
                    RestartStage::TpPlace
                } else {
                    RestartStage::StockCheck
                };
                self.settling = true;
            },
            _ => {},
        }
    }

    /// Takes in what came back.
    pub fn step(&mut self, reply: RestartReply)
        requires
            old(self).valid(),
            old(self).awaits(reply),
        ensures
            *final(self) == old(self).next(reply),
            final(self).valid(),
    {
        match reply {
            RestartReply::Saved(s) => self.on_saved(s),
            RestartReply::Execution(fill) => {
                self.fill = fill;
                self.stage = RestartStage::EntryHolding;
            },
            RestartReply::Holding(h) => self.on_holding(h),
            RestartReply::Cancelled(taken) => self.on_cancel(taken),
            RestartReply::TpPlaced(tp) => {
                let outcome: RestartOutcome = if self.saved.unwrap().manual {
                    RestartOutcome::ManualKept { tp }
                } else {
                    RestartOutcome::Reopened { tp }
                };
                self.stage = RestartStage::Done(outcome);
            },
        }
    }
}

/// The restart after a number of replies, each of them waited for.
pub open spec fn restart_run(replies: Seq<RestartReply>) -> RestartFlow
    decreases replies.len(),
{
    if replies.len() == 0 {
        RestartFlow::begun()
    } else {
        restart_run(replies.drop_last()).next(replies.last())
    }
}

/// Each reply came when it was waited for.
pub open spec fn restart_followed(replies: Seq<RestartReply>) -> bool
    decreases replies.len(),
{
    replies.len() == 0 || (restart_followed(replies.drop_last()) && restart_run(
        replies.drop_last(),
    ).awaits(replies.last()))
}

impl RestartOutcome {
    /// A person has to look.
    pub open spec fn is_manual(self) -> bool {
        match self {
            RestartOutcome::OrphanHolding { .. } | RestartOutcome::OrphanUnknown { .. }
            | RestartOutcome::ExitManual { .. } | RestartOutcome::EntryManual { .. }
            | RestartOutcome::EntryUnknown { .. } | RestartOutcome::OpenUnknown { .. }
            | RestartOutcome::ManualKept { .. } => true,
            _ => false,
        }
    }

    /// A person has to look.
    pub fn needs_person(&self) -> (r: bool)
        ensures
            r == self.is_manual(),
    {
        matches!(
            self,
            RestartOutcome::OrphanHolding { .. } | RestartOutcome::OrphanUnknown { .. }
            | RestartOutcome::ExitManual { .. } | RestartOutcome::EntryManual { .. }
            | RestartOutcome::EntryUnknown { .. } | RestartOutcome::OpenUnknown { .. }
            | RestartOutcome::ManualKept { .. }
        )
    }
}

proof fn run_is_sound(replies: Seq<RestartReply>)
    requires
        restart_followed(replies),
    ensures
        restart_run(replies).valid(),
        (restart_run(replies).stage is Load) == (replies.len() == 0),
        replies.len() > 0 ==> replies[0] is Saved,
        replies.len() > 0 ==> (match replies[0]->Saved_0 {
            SavedReply::Found(s) => restart_run(replies).saved == Some(s),
            _ => restart_run(replies).saved is None,
        }),
        replies.len() > 0 ==> (match replies[0]->Saved_0 {
            SavedReply::Found(s) => match s.kind {
                SavedKind::ExitUnderWay => match restart_run(replies).stage {
                    RestartStage::ExitHolding => true,
                    RestartStage::Done(o) => o is ExitFlat || o is ExitManual,
                    _ => false,
                },
                SavedKind::EntryUnderWay => match restart_run(replies).stage {
                    RestartStage::EntryExecution | RestartStage::EntryHolding
                    | RestartStage::EntryCancel | RestartStage::EntryRecheck => true,
                    RestartStage::Done(o) => o is EntryManual || o is EntryCleared || o is EntryUnknown,
                    _ => false,
                },
                SavedKind::Settled => match restart_run(replies).stage {
                    RestartStage::TpCancel | RestartStage::StockCheck | RestartStage::TpPlace => true,
                    RestartStage::Done(o) => o is Phantom || o is OpenUnknown || (if s.manual {
                        o is ManualKept
                    } else {
                        o is Reopened
                    }),
                    _ => false,
                },
            },
            _ => match restart_run(replies).stage {
                RestartStage::OrphanHolding { .. } | RestartStage::OrphanCancel { .. } => true,
                RestartStage::Done(o) => o is OrphansCancelled || o is OrphanHolding
                    || o is OrphanUnknown,
                _ => false,
            },
        }),
        (restart_run(replies).stage is OrphanCancel) ==> replies.last() == RestartReply::Holding(
            HoldingReply::Nothing,
        ),
    decreases replies.len(),
{
    if replies.len() > 0 {
        run_is_sound(replies.drop_last());
        if replies.len() == 1 {
            assert(replies.drop_last().len() == 0);
        } else {
            assert(replies.drop_last()[0] == replies[0]);
        }
    }
}

/// The kind of record that was saved decides how a restart can end.  A position that was being
/// closed is never managed again without a person, and neither is one that waited for a person.
pub proof fn record_decides_the_end(replies: Seq<RestartReply>, saved: SavedFacts)
    requires
        restart_followed(replies),
        replies.len() > 0,
        replies[0] == RestartReply::Saved(SavedReply::Found(saved)),
        restart_run(replies).stage is Done,
    ensures
        ({
            let outcome = restart_run(replies).stage->Done_0;
            match saved.kind {
                SavedKind::ExitUnderWay => outcome is ExitFlat || outcome is ExitManual,
                SavedKind::EntryUnderWay => outcome is EntryManual || outcome is EntryCleared
                    || outcome is EntryUnknown,
                SavedKind::Settled => outcome is Phantom || outcome is OpenUnknown || (if saved.manual {
                    outcome is ManualKept
                } else {
                    outcome is Reopened
                }),
            }
        }),
{
    run_is_sound(replies);
}

/// Orders of a stock without a saved record are cancelled only right after the balance was seen
/// to hold none of it: what protects a live position is left alone.
pub proof fn orders_are_cancelled_only_without_stock(replies: Seq<RestartReply>)
    requires
        restart_followed(replies),
        restart_run(replies).wanted() is CancelAllOrders,
    ensures
        replies.len() > 0,
        replies.last() == RestartReply::Holding(HoldingReply::Nothing),
        restart_run(replies).saved is None,
{
    run_is_sound(replies);
}

/// A pending exit is taken to be complete, a pending entry to have come to nothing, and an open
/// position to be gone, only on a balance that was read and holds nothing.
pub proof fn cleared_only_on_empty_balance(flow: RestartFlow, reply: RestartReply)
    requires
        flow.valid(),
        flow.awaits(reply),
        flow.next(reply).stage is Done,
        ({
            let outcome = flow.next(reply).stage->Done_0;
            outcome is ExitFlat || outcome is EntryCleared || outcome is Phantom
        }),
    ensures
        reply is Holding,
        reply->Holding_0.quantity() == Some(0u64),
{
}

/// A balance that cannot be read is never guessed at: whichever balance a restart could not read
/// when it ended, a person has to look.
pub proof fn unreadable_balance_calls_a_person(flow: RestartFlow)
    requires
        flow.valid(),
        flow.awaits(RestartReply::Holding(HoldingReply::Failed)),
    ensures
        flow.next(RestartReply::Holding(HoldingReply::Failed)).stage is Done,
        flow.next(RestartReply::Holding(HoldingReply::Failed)).stage->Done_0.is_manual(),
{
}

/// What a restart writes to the journal about quantities and prices.
#[derive(Debug, Clone, Copy, PartialEq, Eq, Structural)]
pub struct RestartFigures {
    pub intended_price: Option<i64>,
    pub submitted_price: Option<i64>,
    pub filled_price: Option<i64>,
    pub filled_qty: Option<i64>,
    pub holdings_before: Option<i64>,
    pub holdings_after: Option<i64>,
    pub resolution: ExitResolutionSource,
}

impl RestartFlow {
    /// What is written about a restart that ended.
    pub open spec fn figures_of(self, outcome: RestartOutcome) -> RestartFigures {
        let s = self.saved->0;
        let blank = RestartFigures {
            intended_price: None,
            submitted_price: None,
            filled_price: None,
            filled_qty: None,
            holdings_before: None,
            holdings_after: None,
            resolution: ExitResolutionSource::BalanceOnly,
        };
        let open = RestartFigures {
            intended_price: Some(s.entry_price),
            filled_qty: Some(s.quantity),
            holdings_before: Some(s.quantity),
            holdings_after: Some(s.quantity),
            ..blank
        };
        let pending = RestartFigures {
            intended_price: Some(s.intended_price),
            submitted_price: Some(s.entry_price),
            holdings_before: Some(s.quantity),
            ..blank
        };
        match outcome {
            RestartOutcome::OrphansCancelled { .. } => RestartFigures {
                filled_qty: Some(0),
                holdings_before: Some(0),
                holdings_after: Some(0),
                ..blank
            },
            RestartOutcome::OrphanHolding { qty, avg, .. } => RestartFigures {
                filled_price: avg,
                filled_qty: Some(qty as i64),
                holdings_before: Some(qty as i64),
                holdings_after: Some(qty as i64),
                ..blank
            },
            RestartOutcome::OrphanUnknown { .. } => RestartFigures {
                resolution: ExitResolutionSource::Unresolved,
                ..blank
            },
            RestartOutcome::ExitFlat | RestartOutcome::Phantom => RestartFigures {
                holdings_after: Some(0),
                ..open
            },
            RestartOutcome::OpenUnknown { .. } => RestartFigures {
                filled_qty: None,
                holdings_after: None,
                resolution: ExitResolutionSource::Unresolved,
                ..open
            },
            RestartOutcome::ExitManual { qty, .. } => RestartFigures {
                filled_qty: None,
                holdings_after: Some(qty as i64),
                resolution: ExitResolutionSource::Unresolved,
                ..open
            },
            RestartOutcome::EntryManual { qty, entry_price, .. } => RestartFigures {
                filled_price: Some(entry_price),
                filled_qty: Some(qty as i64),
                holdings_after: Some(qty as i64),
                ..pending
            },
            RestartOutcome::EntryCleared { .. } => RestartFigures {
                filled_qty: Some(0),
                holdings_after: Some(0),
                ..pending
            },
            RestartOutcome::EntryUnknown { why: EntryTrouble::RecheckUnreadable } => RestartFigures {
                resolution: ExitResolutionSource::Unresolved,
                ..pending
            },
            RestartOutcome::EntryUnknown { why } => RestartFigures {
                filled_price: match self.fill {
                    Some(f) => Some(f.price),
                    None => None,
                },
                filled_qty: match self.fill {
                    Some(f) => Some(f.qty as i64),
                    None => None,
                },
                holdings_after: if why is CancelFailed {
                    Some(0)
                } else {
                    None
                },
                resolution: ExitResolutionSource::Unresolved,
                ..pending
            },
            RestartOutcome::ManualKept { .. } => RestartFigures {
                filled_price: Some(s.entry_price),
                ..open
            },
            RestartOutcome::Reopened { tp } => RestartFigures {
                submitted_price: tp,
                filled_price: Some(s.entry_price),
                ..open
            },
        }
    }

    /// Whether an outcome speaks of a saved record.
    pub open spec fn can_report(self, outcome: RestartOutcome) -> bool {
        outcome is OrphansCancelled || outcome is OrphanHolding || outcome is OrphanUnknown
            || self.saved is Some
    }

    /// What is written about a restart that ended.
    pub fn figures(&self, outcome: &RestartOutcome) -> (r: RestartFigures)
        requires
            self.can_report(*outcome),
        ensures
            r == self.figures_of(*outcome),
    {
        let blank = RestartFigures {
            intended_price: None,
            submitted_price: None,
            filled_price: None,
            filled_qty: None,
            holdings_before: None,
            holdings_after: None,
            resolution: ExitResolutionSource::BalanceOnly,
        };
        match *outcome {
            RestartOutcome::OrphansCancelled { .. } => {
                return RestartFigures {
                    filled_qty: Some(0),
                    holdings_before: Some(0),
                    holdings_after: Some(0),
                    ..blank
                };
            },
            RestartOutcome::OrphanHolding { qty, avg, .. } => {
                return RestartFigures {
                    filled_price: avg,
                    filled_qty: Some(qty as i64),
                    holdings_before: Some(qty as i64),
                    holdings_after: Some(qty as i64),
                    ..blank
                };
            },
            RestartOutcome::OrphanUnknown { .. } => {
                return RestartFigures { resolution: ExitResolutionSource::Unresolved, ..blank };
            },
            _ => {},
        }
        let s: SavedFacts = self.saved.unwrap();
        let open = RestartFigures {
            intended_price: Some(s.entry_price),
            filled_qty: Some(s.quantity),
            holdings_before: Some(s.quantity),
            holdings_after: Some(s.quantity),
            ..blank
        };
        let pending = RestartFigures {
            intended_price: Some(s.intended_price),
            submitted_price: Some(s.entry_price),
            holdings_before: Some(s.quantity),
            ..blank
        };
        match *outcome {
            RestartOutcome::ExitFlat | RestartOutcome::Phantom => RestartFigures {
                holdings_after: Some(0),
                ..open
            },
            RestartOutcome::OpenUnknown { .. } => RestartFigures {
                filled_qty: None,
                holdings_after: None,
                resolution: ExitResolutionSource::Unresolved,
                ..open
            },
            RestartOutcome::ExitManual { qty, .. } => RestartFigures {
                filled_qty: None,
                holdings_after: Some(qty as i64),
                resolution: ExitResolutionSource::Unresolved,
                ..open
            },
            RestartOutcome::EntryManual { qty, entry_price, .. } => RestartFigures {
                filled_price: Some(entry_price),
                filled_qty: Some(qty as i64),
                holdings_after: Some(qty as i64),
                ..pending
            },
            RestartOutcome::EntryCleared { .. } => RestartFigures {
                filled_qty: Some(0),
                holdings_after: Some(0),
                ..pending
            },
            RestartOutcome::EntryUnknown { why } => {
                if matches!(why, EntryTrouble::RecheckUnreadable) {
                    return RestartFigures {
                        resolution: ExitResolutionSource::Unresolved,
                        ..pending
                    };
                }
                let (price, qty): (Option<i64>, Option<i64>) = match self.fill {
                    Some(f) => (Some(f.price), Some(f.qty as i64)),
                    None => (None, None),
                };
                RestartFigures {
                    filled_price: price,
                    filled_qty: qty,
                    holdings_after: if matches!(why, EntryTrouble::CancelFailed) {
                        Some(0)
                    } else {
                        None
                    },
                    resolution: ExitResolutionSource::Unresolved,
                    ..pending
                }
            },
            RestartOutcome::ManualKept { .. } => RestartFigures {
                filled_price: Some(s.entry_price),
                ..open
            },
            RestartOutcome::Reopened { tp } => RestartFigures {
                submitted_price: tp,
                filled_price: Some(s.entry_price),
                ..open
            },
            _ => blank,
        }
    }
}

impl RestartOutcome {
    /// The text under which the end of a restart is stored.
    pub open spec fn words(self, last_exit_reason: Seq<char>) -> Seq<char> {
        match self {
            RestartOutcome::OrphansCancelled { fallback, .. } | RestartOutcome::OrphanHolding {
                fallback,
                ..
            } | RestartOutcome::OrphanUnknown { fallback } => "safe_orphan_cleanup:"@ + (
            if fallback {
                "restore_fallback"@
            } else {
                "orphan_cleanup"@
            }),
            RestartOutcome::ExitFlat => "restart_recovery:"@ + last_exit_reason,
            RestartOutcome::ExitManual { seen, .. } => "restart_recovery:"@ + (if seen {
                "exit_pending_holdings_remaining"@
            } else {
                "exit_pending_balance_lookup_failed"@
            }),
            RestartOutcome::EntryManual { race, .. } => "restart_recovery:"@ + (if race {
                "entry_pending_restart_cancel_race"@
            } else {
                "entry_pending_holdings_remaining"@
            }),
            RestartOutcome::EntryCleared { cancelled } => if cancelled {
                "entry_pending_restart_cancelled_flat"@
            } else {
                "entry_pending_restart_no_holdings"@
            },
            RestartOutcome::EntryUnknown { why: EntryTrouble::BalanceUnreadable } =>
            "restart_entry_pending_balance_lookup_failed"@,
            RestartOutcome::EntryUnknown { why: EntryTrouble::CancelFailed } =>
            "restart_entry_pending_cancel_failed"@,
            RestartOutcome::EntryUnknown { why: EntryTrouble::RecheckUnreadable } =>
            "restart_entry_pending_post_cancel_balance_lookup_failed"@,
            RestartOutcome::Phantom => "restart_open_phantom_tp_cancel_failed"@,
            RestartOutcome::OpenUnknown { .. } => "restart_recovery:"@
                + "open_balance_lookup_failed"@,
            RestartOutcome::ManualKept { .. } => "restart_manual_intervention_preserved"@,
            RestartOutcome::Reopened { .. } => "restart_open_position_restore"@,
        }
    }

    /// The text under which the end of a restart is stored.
    pub fn reason(&self, last_exit_reason: &str) -> (r: String)
        ensures
            r@ == self.words(last_exit_reason@),
    {
        match *self {
            RestartOutcome::OrphansCancelled { fallback, .. } | RestartOutcome::OrphanHolding {
                fallback,
                ..
            } | RestartOutcome::OrphanUnknown { fallback } => {
                let label: &str = if fallback {
                    "restore_fallback"
                } else {
                    "orphan_cleanup"
                };
                "safe_orphan_cleanup:".to_owned().concat(label)
            },
            RestartOutcome::ExitFlat => "restart_recovery:".to_owned().concat(last_exit_reason),
            RestartOutcome::ExitManual { seen, .. } => {
                let tag: &str = if seen {
                    "exit_pending_holdings_remaining"
                } else {
                    "exit_pending_balance_lookup_failed"
                };
                "restart_recovery:".to_owned().concat(tag)
            },
            RestartOutcome::EntryManual { race, .. } => {
                let tag: &str = if race {
                    "entry_pending_restart_cancel_race"
                } else {
                    "entry_pending_holdings_remaining"
                };
                "restart_recovery:".to_owned().concat(tag)
            },
            RestartOutcome::EntryCleared { cancelled } => if cancelled {
                "entry_pending_restart_cancelled_flat".to_owned()
            } else {
                "entry_pending_restart_no_holdings".to_owned()
            },
            RestartOutcome::EntryUnknown { why: EntryTrouble::BalanceUnreadable } =>
            "restart_entry_pending_balance_lookup_failed".to_owned(),
            RestartOutcome::EntryUnknown { why: EntryTrouble::CancelFailed } =>
            "restart_entry_pending_cancel_failed".to_owned(),
            RestartOutcome::EntryUnknown { why: EntryTrouble::RecheckUnreadable } =>
            "restart_entry_pending_post_cancel_balance_lookup_failed".to_owned(),
            RestartOutcome::Phantom => "restart_open_phantom_tp_cancel_failed".to_owned(),
            RestartOutcome::OpenUnknown { .. } => "restart_recovery:".to_owned().concat(
                "open_balance_lookup_failed",
            ),
            RestartOutcome::ManualKept { .. } => "restart_manual_intervention_preserved".to_owned(),
            RestartOutcome::Reopened { .. } => "restart_open_position_restore".to_owned(),
        }
    }
}

/// Picks up a position whose exit is incomplete, or of which it cannot be told whether it is still
/// there, for a person to look at.
pub fn restore_exit_position(state: &mut RunnerState, saved: &ActivePosition, qty: u64)
    ensures
        final(state).current_position is Some,
        restored_like(
            final(state).current_position->0,
            *saved,
            saved.of_side(),
            qty,
            saved.entry_price,
        ),
        final(state).current_position->0.stop_loss == saved.stop_loss,
        final(state).current_position->0.take_profit == saved.take_profit,
        final(state).current_position->0.best_price == saved.best_price,
        final(state).current_position->0.original_sl == saved.original_sl,
        final(state).current_position->0.reached_1r == saved.reached_1r,
        *final(state) == (RunnerState {
            phase: RunnerPhase::ManualRestored,
            current_position: final(state).current_position,
            ..*old(state)
        }),
{
    let side: PositionSide = saved.position_side();
    let pos = build_restart_restored_position(
        saved,
        side,
        qty,
        saved.entry_price,
        saved.stop_loss,
        saved.take_profit,
        saved.best_price,
        saved.original_sl,
        saved.reached_1r,
    );
    state.current_position = Some(pos);
    state.phase = RunnerPhase::ManualRestored;
}

/// Picks up a position whose entry was filled unnoticed, for a person to look at.
pub fn restore_entry_position(
    state: &mut RunnerState,
    saved: &ActivePosition,
    qty: u64,
    entry_price: i64,
    bracket: Bracket,
)
    ensures
        final(state).current_position is Some,
        restored_like(
            final(state).current_position->0,
            *saved,
            saved.of_side(),
            qty,
            entry_price,
        ),
        final(state).current_position->0.stop_loss == bracket.stop_loss,
        final(state).current_position->0.take_profit == bracket.take_profit,
        final(state).current_position->0.best_price == entry_price,
        final(state).current_position->0.original_sl == bracket.stop_loss,
        !final(state).current_position->0.reached_1r,
        *final(state) == (RunnerState {
            or_high: saved.or_high,
            or_low: saved.or_low,
            current_position: final(state).current_position,
            ..*old(state)
        }),
{
    let side: PositionSide = saved.position_side();
    let pos = build_restart_restored_position(
        saved,
        side,
        qty,
        entry_price,
        bracket.stop_loss,
        bracket.take_profit,
        entry_price,
        bracket.stop_loss,
        false,
    );
    state.or_high = saved.or_high;
    state.or_low = saved.or_low;
    state.current_position = Some(pos);
}

/// The record of such a position.
pub fn restored_entry_record(
    saved: &ActivePosition,
    qty: u64,
    entry_price: i64,
    bracket: Bracket,
) -> (r: ActivePosition)
    ensures
        r.entry_price == entry_price,
        r.best_price == entry_price,
        r.stop_loss == bracket.stop_loss,
        r.original_sl == bracket.stop_loss,
        r.take_profit == bracket.take_profit,
        r.quantity == qty as i64,
        !r.reached_1r,
        r.tp_order_no@.len() == 0,
        r.tp_krx_orgno@.len() == 0,
        r.execution_state@ == "manual_intervention"@,
        r.last_exit_order_no@.len() == 0,
        r.last_exit_reason@.len() == 0,
        r.pending_entry_order_no@.len() == 0,
        r.pending_entry_krx_orgno@.len() == 0,
        r.stock_code@ == saved.stock_code@,
        r.side@ == saved.side@,
        r.entry_time == saved.entry_time,
        r.or_high == saved.or_high,
        r.or_low == saved.or_low,
        same_words(r.or_stage, saved.or_stage),
        same_words(r.or_source, saved.or_source),
        r.trigger_price == saved.trigger_price,
        r.original_risk == saved.original_risk,
        same_words(r.signal_id, saved.signal_id),
        same_words(r.entry_mode, saved.entry_mode),
        r.manual_intervention_required == saved.manual_intervention_required,
{
    proof {
        reveal_strlit("");
    }
    ActivePosition {
        stock_code: saved.stock_code.clone(),
        side: saved.side.clone(),
        entry_price,
        stop_loss: bracket.stop_loss,
        take_profit: bracket.take_profit,
        quantity: qty as i64,
        tp_order_no: "".to_owned(),
        tp_krx_orgno: "".to_owned(),
        entry_time: saved.entry_time,
        original_sl: bracket.stop_loss,
        reached_1r: false,
        best_price: entry_price,
        or_high: saved.or_high,
        or_low: saved.or_low,
        or_stage: copy_words(&saved.or_stage),
        or_source: copy_words(&saved.or_source),
        trigger_price: saved.trigger_price,
        original_risk: saved.original_risk,
        signal_id: copy_words(&saved.signal_id),
        entry_mode: copy_words(&saved.entry_mode),
        manual_intervention_required: saved.manual_intervention_required,
        execution_state: "manual_intervention".to_owned(),
        last_exit_order_no: "".to_owned(),
        last_exit_reason: "".to_owned(),
        pending_entry_order_no: "".to_owned(),
        pending_entry_krx_orgno: "".to_owned(),
    }
}

/// Both are missing, or both are the same text.
pub open spec fn same_words(a: Option<String>, b: Option<String>) -> bool {
    match (a, b) {
        (Some(x), Some(y)) => x@ == y@,
        (None, None) => true,
        _ => false,
    }
}

fn copy_words(t: &Option<String>) -> (r: Option<String>)
    ensures
        same_words(r, *t),
{
    match t {
        Some(s) => Some(s.clone()),
        None => None,
    }
}

/// A stage of the opening range, by its name.
pub open spec fn stage_at(stages: Seq<(String, i64, i64)>, name: Seq<char>, i: int) -> bool {
    &&& 0 <= i < stages.len()
    &&& stages[i].0@ == name
    &&& forall|j: int| 0 <= j < i ==> (#[trigger] stages[j]).0@ != name
}

/// The opening range that a restart puts back: that of the stage that was entered on, where it is
/// among the stored stages; else the one saved with the position; else the first stored stage's.
pub open spec fn range_put_back(
    saved: ActivePosition,
    stages: Option<Seq<(String, i64, i64)>>,
    high: Option<i64>,
    low: Option<i64>,
) -> bool {
    match stages {
        Some(s) if s.len() > 0 => {
            ||| (saved.or_stage matches Some(name) && exists|i: int| #[trigger]
                stage_at(s, name@, i) && high == Some(s[i].1) && low == Some(s[i].2))
            ||| {
                &&& (saved.or_stage matches Some(name) ==> forall|i: int| !#[trigger]
                    stage_at(s, name@, i))
                &&& high == (if saved.or_high is Some {
                    saved.or_high
                } else {
                    Some(s[0].1)
                })
                &&& low == (if saved.or_low is Some {
                    saved.or_low
                } else {
                    Some(s[0].2)
                })
            }
        },
        _ => high == saved.or_high && low == saved.or_low,
    }
}

/// The place of the first stage with a name.
fn find_stage(stages: &Vec<(String, i64, i64)>, name: &str) -> (r: Option<usize>)
    ensures
        match r {
            Some(i) => stage_at(stages@, name@, i as int),
            None => forall|i: int| !#[trigger] stage_at(stages@, name@, i),
        },
{
    let mut i: usize = 0;
    while i < stages.len()
        invariant
            i <= stages.len(),
            forall|j: int| 0 <= j < i ==> (#[trigger] stages@[j]).0@ != name@,
        decreases stages.len() - i,
    {
        if same_text(stages[i].0.as_str(), name) {
            return Some(i);
        }
        i = i + 1;
    }
    None
}

/// Picks up an open position.  `tp` is its new take-profit order; `stages` are the stages of
/// today's opening range, where they could be read.
pub fn restore_open_position(
    state: &mut RunnerState,
    saved: &ActivePosition,
    tp: &Option<(String, String, i64)>,
    stages: Option<Vec<(String, i64, i64)>>,
)
    ensures
        final(state).current_position is Some,
        ({
            let p = final(state).current_position->0;
            &&& p.side is Long
            &&& p.entry_price == saved.entry_price
            &&& p.stop_loss == saved.stop_loss
            &&& p.take_profit == saved.take_profit
            &&& p.entry_time == saved.entry_time.time
            &&& p.quantity == saved.quantity as u64
            &&& p.reached_1r == saved.reached_1r
            &&& p.best_price == saved.best_price
            &&& p.original_sl == saved.original_sl
            &&& !p.sl_triggered_tick
            &&& p.intended_entry_price == saved.entry_price
            &&& p.order_to_fill_ms == 0
            &&& p.signal_id@ == text_or_blank(saved.signal_id)
            &&& protected_by(p, *tp)
        }),
        range_put_back(
            *saved,
            match stages {
                Some(s) => Some(s@),
                None => None,
            },
            final(state).or_high,
            final(state).or_low,
        ),
        *final(state) == (RunnerState {
            phase: RunnerPhase::HoldingRestored,
            current_position: final(state).current_position,
            or_high: final(state).or_high,
            or_low: final(state).or_low,
            or_stages: match stages {
                Some(s) => s,
                None => old(state).or_stages,
            },
            ..*old(state)
        }),
{
    let (no, orgno, limit): (Option<String>, Option<String>, Option<i64>) = match tp {
        Some(t) => (Some(t.0.clone()), Some(t.1.clone()), Some(t.2)),
        None => (None, None, None),
    };
    state.current_position =
    Some(
        Position {
            side: PositionSide::Long,
            entry_price: saved.entry_price,
            stop_loss: saved.stop_loss,
            take_profit: saved.take_profit,
            entry_time: saved.entry_time.time,
            quantity: saved.quantity as u64,
            tp_order_no: no,
            tp_krx_orgno: orgno,
            tp_limit_price: limit,
            reached_1r: saved.reached_1r,
            best_price: saved.best_price,
            original_sl: saved.original_sl,
            sl_triggered_tick: false,
            intended_entry_price: saved.entry_price,
            order_to_fill_ms: 0,
            signal_id: or_blank(&saved.signal_id),
        },
    );
    state.phase = RunnerPhase::HoldingRestored;
    state.or_high = saved.or_high;
    state.or_low = saved.or_low;
    if let Some(found) = stages {
        if found.len() > 0 {
            let place: Option<usize> = match &saved.or_stage {
                Some(name) => find_stage(&found, name.as_str()),
                None => None,
            };
            match place {
                Some(i) => {
                    state.or_high = Some(found[i].1);
                    state.or_low = Some(found[i].2);
                },
                None => {
                    if saved.or_high.is_none() {
                        state.or_high = Some(found[0].1);
                    }
                    if saved.or_low.is_none() {
                        state.or_low = Some(found[0].2);
                    }
                },
            }
        }
        state.or_stages = found;
    }
}

/// Hands a position that was picked up over to the person who had it before.
pub fn restore_manual(
    state: &mut RunnerState,
    lock: &mut PositionLockState,
    code: &str,
    reason: String,
)
    ensures
        *final(state) == (RunnerState {
            phase: RunnerPhase::Manual,
            manual_intervention_required: true,
            degraded: true,
            degraded_reason: Some(reason),
            execution_state: ExecutionState::ManualIntervention,
            ..*old(state)
        }),
        final(lock)@ == LockModel::ManualHeld(code@),
{
    let _ = state.enter_manual(reason);
    *lock = PositionLockState::ManualHeld(code.to_owned());
}

/// Frees the lock where `code` itself holds it, for a person's sake or not: nothing is left of its
/// position.
pub fn free_own_lock(lock: &mut PositionLockState, code: &str)
    ensures
        final(lock)@ == (if old(lock)@.held_by(code@) || old(lock)@ == LockModel::ManualHeld(
            code@,
        ) {
            LockModel::Free
        } else {
            old(lock)@
        }),
{
    let own: bool = match &*lock {
        PositionLockState::Held(holder) => same_text(holder.as_str(), code),
        PositionLockState::ManualHeld(holder) => same_text(holder.as_str(), code),
        PositionLockState::Pending { code: waiting, .. } => same_text(waiting.as_str(), code),
        PositionLockState::Free => false,
    };
    if own {
        *lock = PositionLockState::Free;
    }
}

/// What a restart asks for after a number of replies.
pub open spec fn asked_after(replies: Seq<RestartReply>) -> RestartRequest {
    restart_run(replies).wanted()
}

/// Without a record the balance decides.  Where it holds none of the stock, every order is
/// cancelled; where it holds some, or cannot be read, nothing is touched and the restart ends.
pub proof fn without_a_record_the_balance_decides(
    reply: SavedReply,
    holding: HoldingReply,
    taken: bool,
)
    requires
        !(reply is Found),
    ensures
        asked_after(seq![]) == RestartRequest::LoadSaved,
        asked_after(seq![RestartReply::Saved(reply)]) == (RestartRequest::FetchHolding {
            after_ms: 0,
        }),
        ({
            let fallback = reply is NoStore || reply is Unreadable;
            let asked = asked_after(
                seq![RestartReply::Saved(reply), RestartReply::Holding(holding)],
            );
            match holding {
                HoldingReply::Nothing => asked == (RestartRequest::CancelAllOrders { fallback })
                    && asked_after(
                    seq![
                        RestartReply::Saved(reply),
                        RestartReply::Holding(holding),
                        RestartReply::Cancelled(taken),
                    ],
                ) == RestartRequest::Finished(
                    RestartOutcome::OrphansCancelled { fallback, complete: taken },
                ),
                HoldingReply::Held { qty, avg } => asked == RestartRequest::Finished(
                    RestartOutcome::OrphanHolding { fallback, qty, avg },
                ),
                HoldingReply::Failed => asked == RestartRequest::Finished(
                    RestartOutcome::OrphanUnknown { fallback },
                ),
            }
        }),
{
    let s1 = seq![RestartReply::Saved(reply)];
    let s2 = seq![RestartReply::Saved(reply), RestartReply::Holding(holding)];
    let s3 = seq![
        RestartReply::Saved(reply),
        RestartReply::Holding(holding),
        RestartReply::Cancelled(taken),
    ];
    assert(s1.drop_last() =~= seq![]);
    assert(s2.drop_last() =~= s1);
    assert(s3.drop_last() =~= s2);
    assert(restart_run(seq![]) == RestartFlow::begun());
}

/// An exit that was under way is over exactly where the balance is seen to hold nothing.  What it
/// holds is left to a person, and so is what was saved where the balance cannot be read.
pub proof fn balance_tells_how_the_exit_went(saved: SavedFacts, holding: HoldingReply)
    requires
        saved.kind is ExitUnderWay,
    ensures
        ({
            let found = RestartReply::Saved(SavedReply::Found(saved));
            let asked = asked_after(seq![found, RestartReply::Holding(holding)]);
            &&& asked_after(seq![found]) == (RestartRequest::FetchHolding { after_ms: 0 })
            &&& match holding {
                HoldingReply::Nothing => asked == RestartRequest::Finished(RestartOutcome::ExitFlat),
                HoldingReply::Held { qty, .. } => asked == RestartRequest::Finished(
                    if qty == 0 {
                        RestartOutcome::ExitFlat
                    } else {
                        RestartOutcome::ExitManual { qty, seen: true }
                    },
                ),
                HoldingReply::Failed => asked == RestartRequest::Finished(
                    RestartOutcome::ExitManual {
                        qty: if saved.quantity > 0 {
                            saved.quantity as u64
                        } else {
                            0
                        },
                        seen: false,
                    },
                ),
            }
        }),
{
    let found = RestartReply::Saved(SavedReply::Found(saved));
    let s1 = seq![found];
    let s2 = seq![found, RestartReply::Holding(holding)];
    assert(s1.drop_last() =~= seq![]);
    assert(s2.drop_last() =~= s1);
    assert(restart_run(seq![]) == RestartFlow::begun());
}

/// The price that a person is told for an entry that was filled after all: the balance's average
/// where it is positive, else the price of the fill that the broker reported where that is
/// positive, else the price that was ordered.
pub open spec fn told_entry_price(avg: Option<i64>, fill: Option<Fill>, ordered: i64) -> i64 {
    if avg is Some && avg->0 > 0 {
        avg->0
    } else if fill is Some && fill->0.price > 0 {
        fill->0.price
    } else {
        ordered
    }
}

/// An entry that was under way is looked up by its order, where that is known, and then in the
/// balance: what it holds is left to a person.
pub proof fn balance_tells_how_the_entry_went(
    saved: SavedFacts,
    fill: Option<Fill>,
    holding: HoldingReply,
)
    requires
        saved.kind is EntryUnderWay,
    ensures
        ({
            let found = RestartReply::Saved(SavedReply::Found(saved));
            let looked = if saved.has_entry_order {
                seq![found, RestartReply::Execution(fill)]
            } else {
                seq![found]
            };
            let known = if saved.has_entry_order {
                fill
            } else {
                None
            };
            let asked = asked_after(looked.push(RestartReply::Holding(holding)));
            let held = match holding {
                HoldingReply::Held { qty, .. } => qty > 0,
                _ => false,
            };
            &&& asked_after(seq![found]) == (if saved.has_entry_order {
                RestartRequest::QueryEntryExecution
            } else {
                RestartRequest::FetchHolding { after_ms: 0 }
            })
            &&& asked_after(looked) == (RestartRequest::FetchHolding { after_ms: 0 })
            &&& holding is Failed ==> asked == RestartRequest::Finished(
                RestartOutcome::EntryUnknown { why: EntryTrouble::BalanceUnreadable },
            )
            &&& held ==> asked == RestartRequest::Finished(
                RestartOutcome::EntryManual {
                    qty: holding->qty,
                    entry_price: told_entry_price(holding->avg, known, saved.entry_price),
                    race: false,
                },
            )
            &&& !held && !(holding is Failed) ==> asked == (if saved.has_entry_order
                && saved.has_entry_orgno {
                RestartRequest::CancelEntryOrder
            } else {
                RestartRequest::Finished(RestartOutcome::EntryCleared { cancelled: false })
            })
        }),
{
    let found = RestartReply::Saved(SavedReply::Found(saved));
    let s1 = seq![found];
    let s2 = seq![found, RestartReply::Execution(fill)];
    assert(s1.drop_last() =~= seq![]);
    assert(s2.drop_last() =~= s1);
    assert(restart_run(seq![]) == RestartFlow::begun());
    let looked = if saved.has_entry_order {
        s2
    } else {
        s1
    };
    assert(looked.push(RestartReply::Holding(holding)).drop_last() =~= looked);
}

/// An entry order that is still out is cancelled, and two seconds later the balance is read again:
/// only where it still holds nothing has the entry come to nothing.
pub proof fn cancelled_entries_are_looked_up_again(
    saved: SavedFacts,
    fill: Option<Fill>,
    before: HoldingReply,
    taken: bool,
    after: HoldingReply,
)
    requires
        saved.kind is EntryUnderWay,
        saved.has_entry_order,
        saved.has_entry_orgno,
        match before {
            HoldingReply::Nothing => true,
            HoldingReply::Held { qty, .. } => qty == 0,
            HoldingReply::Failed => false,
        },
    ensures
        ({
            let cancelled = seq![
                RestartReply::Saved(SavedReply::Found(saved)),
                RestartReply::Execution(fill),
                RestartReply::Holding(before),
                RestartReply::Cancelled(taken),
            ];
            let asked = asked_after(cancelled.push(RestartReply::Holding(after)));
            if !taken {
                asked_after(cancelled) == RestartRequest::Finished(
                    RestartOutcome::EntryUnknown { why: EntryTrouble::CancelFailed },
                )
            } else {
                &&& asked_after(cancelled) == (RestartRequest::FetchHolding { after_ms: 2_000 })
                &&& match after {
                    HoldingReply::Failed => asked == RestartRequest::Finished(
                        RestartOutcome::EntryUnknown { why: EntryTrouble::RecheckUnreadable },
                    ),
                    HoldingReply::Nothing => asked == RestartRequest::Finished(
                        RestartOutcome::EntryCleared { cancelled: true },
                    ),
                    HoldingReply::Held { qty, avg } => asked == RestartRequest::Finished(
                        if qty > 0 {
                            RestartOutcome::EntryManual {
                                qty,
                                entry_price: told_entry_price(avg, fill, saved.entry_price),
                                race: true,
                            }
                        } else {
                            RestartOutcome::EntryCleared { cancelled: true }
                        },
                    ),
                }
            }
        }),
{
    let found = RestartReply::Saved(SavedReply::Found(saved));
    let s1 = seq![found];
    let s2 = seq![found, RestartReply::Execution(fill)];
    let s3 = seq![found, RestartReply::Execution(fill), RestartReply::Holding(before)];
    let s4 = seq![
        found,
        RestartReply::Execution(fill),
        RestartReply::Holding(before),
        RestartReply::Cancelled(taken),
    ];
    assert(s1.drop_last() =~= seq![]);
    assert(s2.drop_last() =~= s1);
    assert(s3.drop_last() =~= s2);
    assert(s4.drop_last() =~= s3);
    assert(s4.push(RestartReply::Holding(after)).drop_last() =~= s4);
    assert(restart_run(seq![]) == RestartFlow::begun());
    assert(restart_run(s1).stage is EntryExecution);
    assert(restart_run(s2).stage is EntryHolding);
    assert(restart_run(s3).stage is EntryCancel);
}

/// An open position gets its take-profit order anew, at its saved price and in its saved quantity.
/// The old one is cancelled first where there is one, and the new one waits three seconds for that.
/// It is then managed again, unless it waited for a person.
pub proof fn open_positions_are_protected_anew(saved: SavedFacts, tp: Option<i64>)
    requires
        saved.kind is Settled,
    ensures
        ({
            let found = RestartReply::Saved(SavedReply::Found(saved));
            let ready = if saved.has_tp {
                seq![found, RestartReply::Cancelled(true)]
            } else {
                seq![found]
            };
            &&& saved.has_tp ==> asked_after(seq![found]) == RestartRequest::CancelTpOrder
            &&& saved.quantity >= 0 ==> asked_after(ready) == (RestartRequest::PlaceTp {
                price: saved.take_profit,
                qty: saved.quantity as u64,
                after_ms: if saved.has_tp {
                    3_000
                } else {
                    0
                },
            })
            &&& asked_after(ready.push(RestartReply::TpPlaced(tp))) == RestartRequest::Finished(
                if saved.manual {
                    RestartOutcome::ManualKept { tp }
                } else {
                    RestartOutcome::Reopened { tp }
                },
            )
        }),
{
    let found = RestartReply::Saved(SavedReply::Found(saved));
    let s1 = seq![found];
    let s2 = seq![found, RestartReply::Cancelled(true)];
    assert(s1.drop_last() =~= seq![]);
    assert(s2.drop_last() =~= s1);
    assert(restart_run(seq![]) == RestartFlow::begun());
    let ready = if saved.has_tp {
        s2
    } else {
        s1
    };
    assert(ready.push(RestartReply::TpPlaced(tp)).drop_last() =~= ready);
}

/// Where the old take-profit order cannot be cancelled, the balance is read three seconds later:
/// without stock the position is gone, with stock it is protected anew at once, and a balance that
/// cannot be read leaves the saved quantity to a person.
pub proof fn uncancelled_protection_may_have_been_filled(
    saved: SavedFacts,
    holding: HoldingReply,
    tp: Option<i64>,
)
    requires
        saved.kind is Settled,
        saved.has_tp,
        saved.quantity >= 0,
    ensures
        ({
            let refused = seq![
                RestartReply::Saved(SavedReply::Found(saved)),
                RestartReply::Cancelled(false),
            ];
            let looked = refused.push(RestartReply::Holding(holding));
            &&& asked_after(refused) == (RestartRequest::FetchHolding { after_ms: 3_000 })
            &&& match holding {
                HoldingReply::Failed => asked_after(looked) == RestartRequest::Finished(
                    RestartOutcome::OpenUnknown { qty: saved.quantity as u64 },
                ),
                HoldingReply::Nothing => asked_after(looked) == RestartRequest::Finished(
                    RestartOutcome::Phantom,
                ),
                HoldingReply::Held { qty, .. } => if qty == 0 {
                    asked_after(looked) == RestartRequest::Finished(RestartOutcome::Phantom)
                } else {
                    &&& asked_after(looked) == (RestartRequest::PlaceTp {
                        price: saved.take_profit,
                        qty: saved.quantity as u64,
                        after_ms: 0,
                    })
                    &&& asked_after(looked.push(RestartReply::TpPlaced(tp)))
                        == RestartRequest::Finished(
                        if saved.manual {
                            RestartOutcome::ManualKept { tp }
                        } else {
                            RestartOutcome::Reopened { tp }
                        },
                    )
                },
            }
        }),
{
    let found = RestartReply::Saved(SavedReply::Found(saved));
    let s1 = seq![found];
    let s2 = seq![found, RestartReply::Cancelled(false)];
    let s3 = s2.push(RestartReply::Holding(holding));
    assert(s1.drop_last() =~= seq![]);
    assert(s2.drop_last() =~= s1);
    assert(s3.drop_last() =~= s2);
    assert(s3.push(RestartReply::TpPlaced(tp)).drop_last() =~= s3);
    assert(restart_run(seq![]) == RestartFlow::begun());
    assert(restart_run(s1).stage is TpCancel);
    assert(restart_run(s2).stage is StockCheck);
    assert(restart_run(s3) == restart_run(s2).next(RestartReply::Holding(holding)));
    assert(restart_run(s3.push(RestartReply::TpPlaced(tp))) == restart_run(s3).next(
        RestartReply::TpPlaced(tp),
    ));
}

/// The facts of a record are what stands in it: it was being closed where its state says that an
/// exit is pending or partial, it was being entered where it says that an entry is pending, and an
/// order is known where it has a number.
pub proof fn facts_are_the_records(saved: ActivePosition)
    ensures
        ({
            let f = SavedFacts::facts_of(saved);
            let state = saved.execution_state@;
            &&& f.kind is ExitUnderWay <==> state == "exit_pending"@ || state == "exit_partial"@
            &&& f.kind is EntryUnderWay <==> state == "entry_pending"@
            &&& f.quantity == saved.quantity
            &&& f.entry_price == saved.entry_price
            &&& f.take_profit == saved.take_profit
            &&& f.manual == saved.manual_intervention_required
            &&& saved.trigger_price matches Some(p) ==> f.intended_price == p
            &&& saved.trigger_price is None ==> f.intended_price == saved.entry_price
            &&& f.has_entry_order <==> saved.pending_entry_order_no@.len() != 0
            &&& f.has_entry_orgno <==> saved.pending_entry_krx_orgno@.len() != 0
            &&& f.has_tp <==> saved.tp_order_no@.len() != 0
        }),
{
    reveal_strlit("exit_pending");
    reveal_strlit("exit_partial");
    reveal_strlit("entry_pending");
    assert("exit_pending"@.len() == 12 && "exit_partial"@.len() == 12 && "entry_pending"@.len()
        == 13);
}

/// What is journaled of a restart is true: the balance afterwards is the one that was seen, and
/// none where none was seen; what is unclear is called unresolved, and what was filled is told only
/// where it is known.
pub proof fn restart_journal_is_true(flow: RestartFlow, outcome: RestartOutcome)
    requires
        flow.can_report(outcome),
    ensures
        ({
            let j = flow.figures_of(outcome);
            let s = flow.saved->0;
            let by_balance = j.resolution == ExitResolutionSource::BalanceOnly;
            let unresolved = j.resolution == ExitResolutionSource::Unresolved;
            match outcome {
                RestartOutcome::OrphansCancelled { .. } => by_balance && j.holdings_after == Some(
                    0i64,
                ) && j.holdings_before == Some(0i64) && j.filled_qty == Some(0i64)
                    && j.filled_price is None && j.intended_price is None && j.submitted_price is None,
                RestartOutcome::OrphanHolding { qty, avg, .. } => by_balance && j.holdings_after
                    == Some(qty as i64) && j.holdings_before == Some(qty as i64) && j.filled_qty
                    == Some(qty as i64) && j.filled_price == avg && j.intended_price is None
                    && j.submitted_price is None,
                RestartOutcome::OrphanUnknown { .. } => unresolved && j.holdings_after is None
                    && j.holdings_before is None && j.filled_qty is None && j.filled_price is None
                    && j.intended_price is None && j.submitted_price is None,
                RestartOutcome::ExitFlat | RestartOutcome::Phantom => by_balance
                    && j.holdings_after == Some(0i64) && j.holdings_before == Some(s.quantity)
                    && j.filled_qty == Some(s.quantity) && j.filled_price is None
                    && j.intended_price == Some(s.entry_price) && j.submitted_price is None,
                RestartOutcome::ExitManual { qty, .. } => unresolved && j.holdings_after == Some(
                    qty as i64,
                ) && j.holdings_before == Some(s.quantity) && j.filled_qty is None
                    && j.filled_price is None && j.intended_price == Some(s.entry_price)
                    && j.submitted_price is None,
                RestartOutcome::OpenUnknown { .. } => unresolved && j.holdings_after is None
                    && j.holdings_before == Some(s.quantity) && j.filled_qty is None
                    && j.filled_price is None && j.intended_price == Some(s.entry_price)
                    && j.submitted_price is None,
                RestartOutcome::EntryManual { qty, entry_price, .. } => by_balance
                    && j.holdings_after == Some(qty as i64) && j.holdings_before == Some(s.quantity)
                    && j.filled_qty == Some(qty as i64) && j.filled_price == Some(entry_price)
                    && j.intended_price == Some(s.intended_price) && j.submitted_price == Some(
                    s.entry_price,
                ),
                RestartOutcome::EntryCleared { .. } => by_balance && j.holdings_after == Some(0i64)
                    && j.holdings_before == Some(s.quantity) && j.filled_qty == Some(0i64)
                    && j.filled_price is None && j.intended_price == Some(s.intended_price)
                    && j.submitted_price == Some(s.entry_price),
                RestartOutcome::EntryUnknown { why } => {
                    let told = flow.fill is Some && !(why is RecheckUnreadable);
                    &&& unresolved
                    &&& j.holdings_before == Some(s.quantity)
                    &&& j.holdings_after == (if why is CancelFailed {
                        Some(0i64)
                    } else {
                        None
                    })
                    &&& told ==> j.filled_price == Some(flow.fill->0.price) && j.filled_qty == Some(
                        flow.fill->0.qty as i64,
                    )
                    &&& !told ==> j.filled_price is None && j.filled_qty is None
                    &&& j.intended_price == Some(s.intended_price)
                    &&& j.submitted_price == Some(s.entry_price)
                },
                RestartOutcome::ManualKept { .. } => by_balance && j.holdings_after == Some(
                    s.quantity,
                ) && j.holdings_before == Some(s.quantity) && j.filled_qty == Some(s.quantity)
                    && j.filled_price == Some(s.entry_price) && j.intended_price == Some(
                    s.entry_price,
                ) && j.submitted_price is None,
                RestartOutcome::Reopened { tp } => by_balance && j.holdings_after == Some(s.quantity)
                    && j.holdings_before == Some(s.quantity) && j.filled_qty == Some(s.quantity)
                    && j.filled_price == Some(s.entry_price) && j.intended_price == Some(
                    s.entry_price,
                ) && j.submitted_price == tp,
            }
        }),
{
}

/// A person is called exactly where stock is held that no runner manages, or where that cannot be
/// told.
pub proof fn persons_are_called_for_what_nobody_manages(outcome: RestartOutcome)
    ensures
        !outcome.is_manual() <==> outcome is OrphansCancelled || outcome is ExitFlat
            || outcome is EntryCleared || outcome is Phantom || outcome is Reopened,
{
}

/// The opening range that is put back is that of the stage that was entered on, where that is among
/// the stored ones, and where none is stored, the saved one.
pub proof fn entered_stage_gives_the_range(
    saved: ActivePosition,
    stages: Seq<(String, i64, i64)>,
    name: String,
    i: int,
    high: Option<i64>,
    low: Option<i64>,
)
    requires
        range_put_back(saved, Some(stages), high, low),
    ensures
        saved.or_stage == Some(name) && 0 <= i < stages.len() && stages[i].0@ == name@ && (forall|
            j: int,
        |
            0 <= j < i ==> (#[trigger] stages[j]).0@ != name@) ==> high == Some(stages[i].1) && low
            == Some(stages[i].2),
        stages.len() == 0 ==> high == saved.or_high && low == saved.or_low,
        stages.len() > 0 && saved.or_stage is None ==> {
            &&& saved.or_high is Some ==> high == saved.or_high
            &&& saved.or_high is None ==> high == Some(stages[0].1)
            &&& saved.or_low is Some ==> low == saved.or_low
            &&& saved.or_low is None ==> low == Some(stages[0].2)
        },
{
    if saved.or_stage == Some(name) && 0 <= i < stages.len() && stages[i].0@ == name@ && (forall|
        j: int,
    |
        0 <= j < i ==> (#[trigger] stages[j]).0@ != name@) {
        assert(stage_at(stages, name@, i));
        assert(stages.len() > 0);
        assert(saved.or_stage->0 == name);
        assert(!(forall|k: int| !#[trigger] stage_at(stages, saved.or_stage->0@, k)));
        assert(exists|k: int|
            #[trigger] stage_at(stages, saved.or_stage->0@, k) && high == Some(stages[k].1) && low
                == Some(stages[k].2));
        assert(exists|k: int|
            #[trigger] stage_at(stages, name@, k) && high == Some(stages[k].1) && low == Some(
                stages[k].2,
            ));
        let k = choose|k: int|
            #[trigger] stage_at(stages, name@, k) && high == Some(stages[k].1) && low == Some(
                stages[k].2,
            );
        if k < i {
            assert(stages[k].0@ != name@);
        }
        if i < k {
            assert(stages[i].0@ != name@);
        }
    }
}

} // verus!
