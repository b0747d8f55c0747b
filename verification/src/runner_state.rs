//! The state of one runner, as the decisions read and change it.

use crate::armed::ArmedWatchStats;
use crate::clock::TimeOfDay;
use crate::close::{
    close_run, flat_only_after_empty_balance, CloseFlow, CloseOutcome, CloseReply, CloseStage,
};
use crate::config::LiveRunnerConfig;
use crate::double::DoubleBits;
use crate::execution_state::ExecutionState;
use crate::position_lock::{LockModel, PositionLockState};
use crate::preflight::PreflightMetadata;
use crate::quotes::DEFAULT_SPREAD_THRESHOLD_TICKS;
use crate::take_profit::TpOutcome;
use crate::types::{ExitReason, Position, TradeResult};
use vstd::prelude::*;

verus! {

/// What the runner is doing, for display.
#[derive(Debug, Clone, Copy, PartialEq, Eq, Structural)]
pub enum RunnerPhase {
    Initializing,
    WaitingForOpen,
    ClosingLeftover,
    CollectingRange,
    Searching,
    Holding,
    HoldingRestored,
    Manual,
    ManualRestored,
    Finished,
}

impl RunnerPhase {
    /// The words shown for a phase.
    pub open spec fn words(self) -> Seq<char> {
        match self {
            RunnerPhase::Initializing => "초기화"@,
            RunnerPhase::WaitingForOpen => "장 시작 대기"@,
            RunnerPhase::ClosingLeftover => "잔여 포지션 청산"@,
            RunnerPhase::CollectingRange => "OR 수집 중 (5분)"@,
            RunnerPhase::Searching => "신호 탐색"@,
            RunnerPhase::Holding => "포지션 보유"@,
            RunnerPhase::HoldingRestored => "포지션 보유 (복구)"@,
            RunnerPhase::Manual => "수동 개입 필요"@,
            RunnerPhase::ManualRestored => "수동 개입 필요 (재시작 복구)"@,
            RunnerPhase::Finished => "종료"@,
        }
    }

    /// The words shown for a phase.
    pub fn label(self) -> (r: &'static str)
        ensures
            r@ == self.words(),
    {
        match self {
            RunnerPhase::Initializing => "초기화",
            RunnerPhase::WaitingForOpen => "장 시작 대기",
            RunnerPhase::ClosingLeftover => "잔여 포지션 청산",
            RunnerPhase::CollectingRange => "OR 수집 중 (5분)",
            RunnerPhase::Searching => "신호 탐색",
            RunnerPhase::Holding => "포지션 보유",
            RunnerPhase::HoldingRestored => "포지션 보유 (복구)",
            RunnerPhase::Manual => "수동 개입 필요",
            RunnerPhase::ManualRestored => "수동 개입 필요 (재시작 복구)",
            RunnerPhase::Finished => "종료",
        }
    }
}

/// The state of one runner.
#[derive(Debug, Clone)]
pub struct RunnerState {
    pub phase: RunnerPhase,
    pub today_trades: Vec<TradeResult>,
    pub today_pnl: DoubleBits,
    pub current_position: Option<Position>,
    /// The opening range.
    pub or_high: Option<i64>,
    pub or_low: Option<i64>,
    /// Every stage of the opening range: its name, high and low.
    pub or_stages: Vec<(String, i64, i64)>,
    pub market_halted: bool,
    /// The system cannot be relied on; nothing is entered.
    pub degraded: bool,
    /// A person has to look.
    pub manual_intervention_required: bool,
    pub degraded_reason: Option<String>,
    /// An exit is under way: no further order is sent, and the position stays until the balance is
    /// seen to be empty.
    pub exit_pending: bool,
    pub execution_state: ExecutionState,
    pub preflight_metadata: PreflightMetadata,
    pub last_external_gate_stale: bool,
    /// When the runner last became flat, in milliseconds of a steady clock.
    pub last_flat_transition_ms: Option<u64>,
    /// What is wrong with the last quote.
    pub last_quote_sanity_issue: Option<String>,
    pub armed_stats: ArmedWatchStats,
    /// The signal that is being watched.
    pub current_armed_signal_id: Option<String>,
}

/// Why an exit is not begun.
#[derive(Debug, Clone, Copy, PartialEq, Eq, Structural)]
pub enum ExitRefusal {
    /// Another exit is under way.
    AlreadyPending,
    /// There is nothing to close.
    NoPosition,
}

/// What a runner that was asked to stop does.
#[derive(Debug, Clone, Copy, PartialEq, Eq, Structural)]
pub enum MainLoopStopAction {
    /// A person has to look: leave the position alone.
    SkipForManual { had_position: bool },
    /// Close the position if there is one, then stop.
    CloseAndExit { has_position: bool },
}

/// What handing over to a person came across.
#[derive(Debug)]
pub struct ManualEntry {
    /// The execution state before.
    pub prev: ExecutionState,
    /// The stock that holds the lock and keeps it.
    pub conflict: Option<String>,
}

/// A stage of the opening range that is complete: its name, high, low and end.
pub type AvailableOrStage = (&'static str, i64, i64, TimeOfDay);

impl RunnerState {
    /// A runner that has just been set up.
    pub fn new() -> (r: Self)
        ensures
            r.phase is Initializing,
            r.today_trades@.len() == 0,
            r.today_pnl.bits == 0,
            r.current_position is None,
            r.or_high is None,
            r.or_low is None,
            r.or_stages@.len() == 0,
            !r.market_halted,
            !r.degraded,
            !r.manual_intervention_required,
            r.degraded_reason is None,
            !r.exit_pending,
            r.execution_state is Flat,
            r.preflight_metadata == (PreflightMetadata {
                entry_cutoff: None,
                spread_ok: true,
                spread_ask: None,
                spread_bid: None,
                spread_mid: None,
                spread_raw: None,
                spread_tick: None,
                spread_threshold_ticks: DEFAULT_SPREAD_THRESHOLD_TICKS,
                nav_gate_ok: true,
                regime_confirmed: true,
                active_instrument: None,
                subscription_health_ok: true,
                quote_issue: None,
            }),
            !r.last_external_gate_stale,
            r.last_flat_transition_ms is None,
            r.last_quote_sanity_issue is None,
            r.armed_stats == ArmedWatchStats::nothing(),
            r.current_armed_signal_id is None,
    {
        RunnerState {
            phase: RunnerPhase::Initializing,
            today_trades: Vec::new(),
            today_pnl: DoubleBits { bits: 0 },
            current_position: None,
            or_high: None,
            or_low: None,
            or_stages: Vec::new(),
            market_halted: false,
            degraded: false,
            manual_intervention_required: false,
            degraded_reason: None,
            exit_pending: false,
            execution_state: ExecutionState::Flat,
            preflight_metadata: PreflightMetadata::default(),
            last_external_gate_stale: false,
            last_flat_transition_ms: None,
            last_quote_sanity_issue: None,
            armed_stats: ArmedWatchStats::default(),
            current_armed_signal_id: None,
        }
    }

    /// The flags and the execution state tell the same story about a person being needed.
    pub open spec fn manual_consistent(self) -> bool {
        self.manual_intervention_required ==> self.degraded && self.execution_state
            == ExecutionState::of_flags(
            self.current_position is Some,
            self.exit_pending,
            self.manual_intervention_required,
            self.degraded,
        )
    }

    /// Begins to close the position, for `reason`.  The position stays where it is.
    pub fn begin_exit(&mut self, reason: ExitReason) -> (r: Result<CloseFlow, ExitRefusal>)
        ensures
            match r {
                Ok(flow) => {
                    &&& !old(self).exit_pending
                    &&& old(self).current_position matches Some(pos)
                    &&& flow == CloseFlow::begun(
                        pos.side,
                        pos.quantity,
                        pos.entry_price,
                        reason,
                        pos.tp_order_no is Some && pos.tp_krx_orgno is Some,
                    )
                    &&& *final(self) == (RunnerState { exit_pending: true, ..*old(self) })
                },
                Err(ExitRefusal::AlreadyPending) => {
                    &&& old(self).exit_pending
                    &&& *final(self) == *old(self)
                },
                Err(ExitRefusal::NoPosition) => {
                    &&& !old(self).exit_pending
                    &&& old(self).current_position is None
                    &&& *final(self) == *old(self)
                },
            },
    {
        if self.exit_pending {
            return Err(ExitRefusal::AlreadyPending);
        }
        let flow: CloseFlow = match &self.current_position {
            Some(pos) => CloseFlow::begin(
                pos.side,
                pos.quantity,
                pos.entry_price,
                reason,
                pos.tp_order_no.is_some() && pos.tp_krx_orgno.is_some(),
            ),
            None => {
                return Err(ExitRefusal::NoPosition);
            },
        };
        self.exit_pending = true;
        Ok(flow)
    }

    /// With the exit off, and a position that no longer counts on its take-profit order.
    pub open spec fn unprotected(self) -> RunnerState {
        RunnerState {
            exit_pending: false,
            current_position: match self.current_position {
                Some(pos) => Some(
                    Position {
                        tp_order_no: None,
                        tp_krx_orgno: None,
                        tp_limit_price: None,
                        ..pos
                    },
                ),
                None => None,
            },
            ..self
        }
    }

    /// The exit order never reached the market and the take-profit order is gone.
    pub fn drop_exit_and_tp(&mut self)
        ensures
            *final(self) == old(self).unprotected(),
    {
        self.exit_pending = false;
        if let Some(mut pos) = self.current_position.take() {
            pos.tp_order_no = None;
            pos.tp_krx_orgno = None;
            pos.tp_limit_price = None;
            self.current_position = Some(pos);
        }
    }

    /// With the position gone and the exit over.
    pub open spec fn settled(self) -> RunnerState {
        RunnerState {
            current_position: None,
            exit_pending: false,
            phase: RunnerPhase::Searching,
            ..self
        }
    }

    /// The position is gone and the exit is over.
    pub fn settle_flat(&mut self)
        ensures
            *final(self) == old(self).settled(),
    {
        self.current_position = None;
        self.exit_pending = false;
        self.phase = RunnerPhase::Searching;
    }

    /// What the end of closing makes of a runner.  Only an empty balance takes the position away;
    /// an exit that may be under way still counts as such.
    pub open spec fn exit_ended(self, outcome: CloseOutcome) -> RunnerState {
        match outcome {
            CloseOutcome::Flat { .. } => self.settled(),
            CloseOutcome::SubmitFailed => self.unprotected(),
            _ => self,
        }
    }

    /// Takes in how closing ended.  The answer is whether a person has to look.
    pub fn finish_exit(&mut self, outcome: CloseOutcome) -> (person: bool)
        ensures
            *final(self) == old(self).exit_ended(outcome),
            person == outcome.for_a_person(),
    {
        match outcome {
            CloseOutcome::Flat { .. } => {
                self.settle_flat();
                false
            },
            CloseOutcome::SubmitFailed => {
                self.drop_exit_and_tp();
                true
            },
            CloseOutcome::VerifyTimedOut => false,
            _ => true,
        }
    }

    /// Takes in how selling the rest of a take-profit order ended.  The answer is whether a person
    /// has to look.
    pub fn finish_tp(&mut self, outcome: TpOutcome) -> (person: bool)
        ensures
            *final(self) == (if outcome is Flat {
                old(self).settled()
            } else {
                *old(self)
            }),
            person == outcome.for_a_person(),
    {
        match outcome {
            TpOutcome::Flat { .. } => {
                self.settle_flat();
                false
            },
            TpOutcome::VerifyTimedOut => false,
            _ => true,
        }
    }

    /// A position was entered, on a stage with this opening range.
    pub fn open_position(&mut self, pos: Position, or_high: i64, or_low: i64)
        ensures
            *final(self) == (RunnerState {
                current_position: Some(pos),
                or_high: Some(or_high),
                or_low: Some(or_low),
                phase: RunnerPhase::Holding,
                ..*old(self)
            }),
    {
        self.current_position = Some(pos);
        self.or_high = Some(or_high);
        self.or_low = Some(or_low);
        self.phase = RunnerPhase::Holding;
    }

    /// Hands over to a person.
    pub fn enter_manual(&mut self, reason: String) -> (prev: ExecutionState)
        ensures
            prev == old(self).execution_state,
            *final(self) == (RunnerState {
                phase: RunnerPhase::Manual,
                manual_intervention_required: true,
                degraded: true,
                degraded_reason: Some(reason),
                execution_state: ExecutionState::ManualIntervention,
                ..*old(self)
            }),
            final(self).manual_consistent(),
    {
        let prev = self.execution_state;
        self.phase = RunnerPhase::Manual;
        self.manual_intervention_required = true;
        self.degraded = true;
        self.degraded_reason = Some(reason);
        self.execution_state = ExecutionState::ManualIntervention;
        prev
    }

    /// Changes the execution state.  The answer is the state before, where it changed.
    pub fn transition_execution_state(&mut self, new: ExecutionState, now_ms: u64) -> (r: Option<
        ExecutionState,
    >)
        ensures
            r == (if old(self).execution_state == new {
                None
            } else {
                Some(old(self).execution_state)
            }),
            *final(self) == (RunnerState {
                execution_state: new,
                last_flat_transition_ms: if new is Flat && old(self).execution_state != new {
                    Some(now_ms)
                } else {
                    old(self).last_flat_transition_ms
                },
                ..*old(self)
            }),
    {
        if self.execution_state == new {
            return None;
        }
        let prev = self.execution_state;
        self.execution_state = new;
        if matches!(new, ExecutionState::Flat) {
            self.last_flat_transition_ms = Some(now_ms);
        }
        Some(prev)
    }

    /// What trouble with the system makes of a runner.  A person's needs come first, and an order
    /// that is under way keeps its state.
    pub open spec fn degraded_for(self, reason: String) -> RunnerState {
        if self.manual_intervention_required {
            self
        } else {
            RunnerState {
                degraded: true,
                degraded_reason: Some(reason),
                execution_state: if self.execution_state.idle() || self.execution_state is Open {
                    ExecutionState::Degraded
                } else {
                    self.execution_state
                },
                ..self
            }
        }
    }

    /// What the end of that trouble makes of a runner.
    pub open spec fn recovered(self, now_ms: u64) -> RunnerState {
        if self.manual_intervention_required || !self.degraded {
            self
        } else if self.execution_state is Degraded && self.current_position is Some {
            RunnerState {
                degraded: false,
                degraded_reason: None,
                execution_state: ExecutionState::Open,
                ..self
            }
        } else if self.execution_state is Degraded {
            RunnerState {
                degraded: false,
                degraded_reason: None,
                execution_state: ExecutionState::Flat,
                last_flat_transition_ms: Some(now_ms),
                ..self
            }
        } else {
            RunnerState { degraded: false, degraded_reason: None, ..self }
        }
    }

    /// The system cannot be relied on.
    pub fn transition_to_degraded(&mut self, reason: String, now_ms: u64)
        ensures
            *final(self) == old(self).degraded_for(reason),
    {
        if self.manual_intervention_required {
            return ;
        }
        self.degraded = true;
        self.degraded_reason = Some(reason);
        if matches!(
            self.execution_state,
            ExecutionState::Flat | ExecutionState::SignalArmed | ExecutionState::Open
        ) {
            let _ = self.transition_execution_state(ExecutionState::Degraded, now_ms);
        }
    }

    /// The system can be relied on again.
    pub fn clear_degraded_if_healthy(&mut self, now_ms: u64)
        ensures
            *final(self) == old(self).recovered(now_ms),
    {
        if self.manual_intervention_required || !self.degraded {
            return ;
        }
        self.degraded = false;
        self.degraded_reason = None;
        if matches!(self.execution_state, ExecutionState::Degraded) {
            let target = if self.current_position.is_some() {
                ExecutionState::Open
            } else {
                ExecutionState::Flat
            };
            let _ = self.transition_execution_state(target, now_ms);
        }
    }

    /// What has to be saved of the position before a person takes over.
    pub fn levels_to_save(&self) -> (r: Option<(i64, bool, i64)>)
        ensures
            r == (match self.current_position {
                Some(pos) => Some((pos.stop_loss, pos.reached_1r, pos.best_price)),
                None => None,
            }),
    {
        match &self.current_position {
            Some(pos) => Some((pos.stop_loss, pos.reached_1r, pos.best_price)),
            None => None,
        }
    }

    /// Takes over the stages of the opening range: all of them for display, and the first one that
    /// may be entered on as the opening range.
    pub fn update_or_state_from_stages(
        &mut self,
        cfg: &LiveRunnerConfig,
        stages: &Vec<AvailableOrStage>,
    )
        ensures
            final(self).or_stages@.len() == stages@.len(),
            forall|i: int|
                0 <= i < stages@.len() ==> {
                    let shown = #[trigger] final(self).or_stages@[i];
                    let stage = stages@[i];
                    shown.0@ == stage.0@ && shown.1 == stage.1 && shown.2 == stage.2
                },
            (exists|i: int| #[trigger] first_allowed(*cfg, stages@, i)) ==> exists|i: int|
                #[trigger] first_allowed(*cfg, stages@, i) && final(self).or_high == Some(
                    stages@[i].1,
                ) && final(self).or_low == Some(stages@[i].2),
            (forall|i: int|
                0 <= i < stages@.len() ==> !cfg.allows((#[trigger] stages@[i]).0@)) ==> {
                &&& final(self).or_high is None
                &&& final(self).or_low is None
            },
            *final(self) == (RunnerState {
                or_high: final(self).or_high,
                or_low: final(self).or_low,
                or_stages: final(self).or_stages,
                ..*old(self)
            }),
    {
        let mut shown: Vec<(String, i64, i64)> = Vec::new();
        let mut high: Option<i64> = None;
        let mut low: Option<i64> = None;
        let ghost mut found: int = 0;
        let mut i: usize = 0;
        while i < stages.len()
            invariant
                i <= stages.len(),
                shown@.len() == i,
                forall|k: int|
                    0 <= k < i ==> {
                        let s = #[trigger] shown@[k];
                        let stage = stages@[k];
                        s.0@ == stage.0@ && s.1 == stage.1 && s.2 == stage.2
                    },
                match high {
                    Some(h) => {
                        &&& first_allowed(*cfg, stages@, found)
                        &&& h == stages@[found].1
                        &&& low == Some(stages@[found].2)
                    },
                    None => low is None && forall|k: int|
                        0 <= k < i ==> !cfg.allows((#[trigger] stages@[k]).0@),
                },
            decreases stages.len() - i,
        {
            let stage: AvailableOrStage = stages[i];
            if high.is_none() && cfg.is_stage_allowed(stage.0) {
                high = Some(stage.1);
                low = Some(stage.2);
                proof {
                    found = i as int;
                }
            }
            shown.push((stage.0.to_owned(), stage.1, stage.2));
            i = i + 1;
        }
        self.or_high = high;
        self.or_low = low;
        self.or_stages = shown;
        proof {
            if high is Some {
                assert(first_allowed(*cfg, stages@, found));
                assert(cfg.allows(stages@[found].0@));
            } else if exists|k: int| #[trigger] first_allowed(*cfg, stages@, k) {
                let k = choose|k: int| #[trigger] first_allowed(*cfg, stages@, k);
                assert(cfg.allows(stages@[k].0@));
            }
        }
    }
}

/// The first stage that may be entered on comes at this place.
pub open spec fn first_allowed(cfg: LiveRunnerConfig, stages: Seq<AvailableOrStage>, i: int) -> bool {
    &&& 0 <= i < stages.len()
    &&& cfg.allows(stages[i].0@)
    &&& forall|j: int| 0 <= j < i ==> !cfg.allows((#[trigger] stages[j]).0@)
}

/// Whether a position must be left alone although the runner is stopped.
pub fn should_skip_auto_close_for_manual(state: &RunnerState) -> (r: bool)
    ensures
        r == state.manual_intervention_required,
{
    state.manual_intervention_required
}

/// What a runner that was asked to stop does.
pub open spec fn stop_action(state: RunnerState) -> MainLoopStopAction {
    if state.manual_intervention_required {
        MainLoopStopAction::SkipForManual { had_position: state.current_position is Some }
    } else {
        MainLoopStopAction::CloseAndExit { has_position: state.current_position is Some }
    }
}

/// What a runner that was asked to stop does.
pub fn classify_main_loop_stop(state: &RunnerState) -> (r: MainLoopStopAction)
    ensures
        r == stop_action(*state),
{
    let has_position: bool = state.current_position.is_some();
    if state.manual_intervention_required {
        MainLoopStopAction::SkipForManual { had_position: has_position }
    } else {
        MainLoopStopAction::CloseAndExit { has_position }
    }
}

/// Hands over to a person, and keeps the lock so that no other stock is entered meanwhile.
pub fn enter_manual_intervention_state(
    state: &mut RunnerState,
    lock: &mut PositionLockState,
    code: &str,
    reason: String,
) -> (r: ManualEntry)
    ensures
        *final(state) == (RunnerState {
            phase: RunnerPhase::Manual,
            manual_intervention_required: true,
            degraded: true,
            degraded_reason: Some(reason),
            execution_state: ExecutionState::ManualIntervention,
            ..*old(state)
        }),
        final(state).manual_consistent(),
        final(lock)@ == old(lock)@.kept_for_manual(code@),
        !(final(lock)@ is Free),
        r.prev == old(state).execution_state,
        match r.conflict {
            Some(holder) => old(lock)@.position_elsewhere(code@) && (old(lock)@ == LockModel::Held(
                holder@,
            ) || old(lock)@ == LockModel::ManualHeld(holder@)),
            None => !old(lock)@.position_elsewhere(code@),
        },
{
    let prev = state.enter_manual(reason);
    let conflict = lock.keep_for_manual(code);
    ManualEntry { prev, conflict }
}

/// Whatever the broker replies while a position is closed, the runner lets go of it only after a
/// verification saw the balance empty.
pub proof fn position_stays_until_the_balance_is_empty(
    state: RunnerState,
    reason: ExitReason,
    replies: Seq<CloseReply>,
    outcome: CloseOutcome,
)
    requires
        state.current_position is Some,
        ({
            let pos = state.current_position->0;
            let flow = CloseFlow::begun(
                pos.side,
                pos.quantity,
                pos.entry_price,
                reason,
                pos.tp_order_no is Some && pos.tp_krx_orgno is Some,
            );
            close_run(flow, replies).stage == CloseStage::Done(outcome)
        }),
        state.exit_ended(outcome).current_position is None,
    ensures
        exists|i: int| 0 <= i < replies.len() && (#[trigger] replies[i]).saw_empty_balance(),
{
    let pos = state.current_position->0;
    flat_only_after_empty_balance(
        pos.side,
        pos.quantity,
        pos.entry_price,
        reason,
        pos.tp_order_no is Some && pos.tp_krx_orgno is Some,
        replies,
    );
}

/// A person's hold is lasting: neither trouble with the system nor its end changes anything about
/// a runner that was handed over.
pub proof fn manual_outlasts_degradation(state: RunnerState, reason: String, now_ms: u64)
    requires
        state.manual_intervention_required,
    ensures
        state.degraded_for(reason) == state,
        state.recovered(now_ms) == state,
{
}

/// Trouble that passes leaves no trace in what a settled runner may do: one that was flat is flat
/// again, one that held a position holds it again, and the position is untouched meanwhile.
pub proof fn passing_trouble_leaves_no_trace(state: RunnerState, reason: String, now_ms: u64)
    requires
        !state.manual_intervention_required,
        state.current_position is Some ==> state.execution_state is Open,
        state.current_position is None ==> state.execution_state is Flat,
    ensures
        state.degraded_for(reason).execution_state is Degraded,
        state.degraded_for(reason).current_position == state.current_position,
        ({
            let after = state.degraded_for(reason).recovered(now_ms);
            &&& !after.degraded
            &&& after.degraded_reason is None
            &&& after.execution_state == state.execution_state
            &&& after.current_position == state.current_position
        }),
{
}

/// An exit that ended with an empty balance takes the position away and ends the exit; one whose
/// order never went out ends the exit and leaves the position, without its take-profit order; and
/// any other end leaves the runner as it was, with the exit still under way.
pub proof fn ends_of_an_exit_change_this(state: RunnerState, outcome: CloseOutcome)
    ensures
        ({
            let after = state.exit_ended(outcome);
            &&& after.today_trades == state.today_trades
            &&& after.execution_state == state.execution_state
            &&& after.manual_intervention_required == state.manual_intervention_required
            &&& after.degraded == state.degraded
            &&& after.or_high == state.or_high && after.or_low == state.or_low
            &&& outcome is Flat ==> after.current_position is None && !after.exit_pending
                && after.phase == RunnerPhase::Searching
            &&& outcome is SubmitFailed ==> {
                &&& !after.exit_pending
                &&& after.phase == state.phase
                &&& after.current_position is Some <==> state.current_position is Some
                &&& state.current_position matches Some(p) ==> {
                    let q = after.current_position->0;
                    &&& q.tp_order_no is None && q.tp_krx_orgno is None && q.tp_limit_price is None
                    &&& q.side == p.side && q.quantity == p.quantity
                    &&& q.entry_price == p.entry_price && q.entry_time == p.entry_time
                    &&& q.stop_loss == p.stop_loss && q.take_profit == p.take_profit
                    &&& q.best_price == p.best_price && q.original_sl == p.original_sl
                    &&& q.reached_1r == p.reached_1r && q.signal_id == p.signal_id
                    &&& q.intended_entry_price == p.intended_entry_price
                    &&& q.order_to_fill_ms == p.order_to_fill_ms
                    &&& q.sl_triggered_tick == p.sl_triggered_tick
                }
            }
            &&& !(outcome is Flat) && !(outcome is SubmitFailed) ==> after == state
        }),
{
}

/// Trouble with the system is noted unless a person has the runner.  It stops one that is flat, has
/// a signal or holds a position; one with an order under way goes on.
pub proof fn trouble_stops_what_is_settled(state: RunnerState, reason: String)
    requires
        !state.manual_intervention_required,
    ensures
        ({
            let after = state.degraded_for(reason);
            let before = state.execution_state;
            &&& after.degraded
            &&& after.degraded_reason == Some(reason)
            &&& before is Flat || before is SignalArmed || before is Open
                ==> after.execution_state == ExecutionState::Degraded
            &&& before is EntryPending || before is EntryPartial || before is ExitPending
                || before is ExitPartial ==> after.execution_state == before
            &&& after.current_position == state.current_position
            &&& after.exit_pending == state.exit_pending
            &&& after.last_flat_transition_ms == state.last_flat_transition_ms
        }),
{
}

/// The end of the trouble takes it back: a runner that was stopped is open where it has a position
/// and flat, from now on, where it has none; one with an order under way goes on.
pub proof fn end_of_trouble_resumes(state: RunnerState, now_ms: u64)
    requires
        !state.manual_intervention_required,
        state.degraded,
    ensures
        ({
            let after = state.recovered(now_ms);
            let stopped = state.execution_state is Degraded;
            &&& !after.degraded && after.degraded_reason is None
            &&& stopped && state.current_position is Some ==> after.execution_state
                == ExecutionState::Open && after.last_flat_transition_ms
                == state.last_flat_transition_ms
            &&& stopped && state.current_position is None ==> after.execution_state
                == ExecutionState::Flat && after.last_flat_transition_ms == Some(now_ms)
            &&& !stopped ==> after.execution_state == state.execution_state
                && after.last_flat_transition_ms == state.last_flat_transition_ms
            &&& after.current_position == state.current_position
            &&& after.exit_pending == state.exit_pending
        }),
{
}

/// A runner without trouble has nothing to recover from.
pub proof fn healthy_runners_stay_as_they_are(state: RunnerState, now_ms: u64)
    requires
        !state.degraded,
    ensures
        state.recovered(now_ms) == state,
{
}

/// A runner that is stopped closes its position, unless a person has it.
pub proof fn stopping_closes_unless_a_person_has_it(state: RunnerState)
    ensures
        state.manual_intervention_required ==> stop_action(state) == (
        MainLoopStopAction::SkipForManual { had_position: state.current_position is Some }),
        !state.manual_intervention_required ==> stop_action(state) == (
        MainLoopStopAction::CloseAndExit { has_position: state.current_position is Some }),
{
}

/// A runner that a person has counts as in trouble and stands at manual intervention; of any other
/// nothing is asked.
pub proof fn persons_runners_say_so(state: RunnerState)
    ensures
        state.manual_intervention_required ==> (state.manual_consistent() <==> state.degraded
            && state.execution_state == ExecutionState::ManualIntervention),
        !state.manual_intervention_required ==> state.manual_consistent(),
{
}

/// The first stage that may be entered on is the one before which none may be.
pub proof fn first_allowed_stage_is_first(
    cfg: LiveRunnerConfig,
    stages: Seq<AvailableOrStage>,
    i: int,
    j: int,
)
    ensures
        0 <= i < stages.len() && cfg.allows(stages[i].0@) && (forall|k: int|
            0 <= k < i ==> !cfg.allows((#[trigger] stages[k]).0@)) ==> first_allowed(
            cfg,
            stages,
            i,
        ),
        first_allowed(cfg, stages, i) && 0 <= j < stages.len() && cfg.allows(stages[j].0@) ==> i
            <= j,
        first_allowed(cfg, stages, i) ==> 0 <= i < stages.len() && cfg.allows(stages[i].0@),
{
    if first_allowed(cfg, stages, i) && 0 <= j < i {
        assert(!cfg.allows(stages[j].0@));
    }
}

} // verus!
