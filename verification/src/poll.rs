//! One round of looking for an entry.

use crate::armed::ArmedWaitOutcome;
use crate::candles::{candles_to_search, search_window};
use crate::clock::TimeOfDay;
use crate::config::LiveRunnerConfig;
use crate::entry::EntryOutcome;
use crate::execution_state::ExecutionState;
use crate::position_lock::{release_lock_if_self_held, PositionLockState};
use crate::preflight::GateBits;
use crate::runner_state::{AvailableOrStage, RunnerState};
use crate::signals::LiveSignalState;
use crate::types::MinuteCandle;
use vstd::prelude::*;

verus! {

/// How many candles a search for a gap needs.
pub const MIN_CANDLES: usize = 3;

/// The shortest pause before an entry is tried again.
pub const MIN_RETRY_DELAY_MS: u64 = 500;

/// A stage of the opening range is searched: entries on it are allowed, and enough candles have
/// come since its end and since the last search.
pub open spec fn worth_searching(
    cfg: LiveRunnerConfig,
    stage: AvailableOrStage,
    candles: Seq<MinuteCandle>,
    after: Option<TimeOfDay>,
) -> bool {
    cfg.allows(stage.0@) && search_window(candles, stage.3, after).len() >= MIN_CANDLES
}

/// The next stage that is searched, from the place `from` on.
pub fn next_stage(
    cfg: &LiveRunnerConfig,
    stages: &Vec<AvailableOrStage>,
    candles: &Vec<MinuteCandle>,
    after: Option<TimeOfDay>,
    from: usize,
) -> (r: Option<usize>)
    ensures
        match r {
            Some(i) => {
                &&& from <= i < stages@.len()
                &&& worth_searching(*cfg, stages@[i as int], candles@, after)
                &&& forall|j: int|
                    from <= j < i ==> !worth_searching(
                        *cfg,
                        #[trigger] stages@[j],
                        candles@,
                        after,
                    )
            },
            None => forall|j: int|
                from <= j < stages@.len() ==> !worth_searching(
                    *cfg,
                    #[trigger] stages@[j],
                    candles@,
                    after,
                ),
        },
{
    let mut i: usize = from;
    while i < stages.len()
        invariant
            from <= i,
            forall|j: int|
                from <= j < i && j < stages@.len() ==> !worth_searching(
                    *cfg,
                    #[trigger] stages@[j],
                    candles@,
                    after,
                ),
        decreases stages.len() - i,
    {
        let stage: AvailableOrStage = stages[i];
        if cfg.is_stage_allowed(stage.0) {
            let window: Vec<MinuteCandle> = candles_to_search(candles, stage.3, after);
            if window.len() >= MIN_CANDLES {
                return Some(i);
            }
        }
        i = i + 1;
    }
    None
}

/// Why an entry was given up.
#[derive(Debug, Clone, Copy)]
pub enum AbortReason {
    ViHalted,
    DriftExceeded,
    PriceFetchFailed,
    ArmedCutoffReached,
    ArmedDriftExceeded,
    ArmedStopped,
    ArmedAlreadyArmed,
    /// As the watch put it.
    Armed(&'static str),
    Preempted,
    PreemptedOnRetry,
    ApiErrorRetryFailed,
    FillTimeoutOrCutoff,
}

impl AbortReason {
    /// The signal itself is spent, and is not looked at again.
    pub open spec fn spends_signal(self) -> bool {
        match self {
            AbortReason::DriftExceeded | AbortReason::ArmedCutoffReached
            | AbortReason::ArmedDriftExceeded | AbortReason::FillTimeoutOrCutoff => true,
            _ => false,
        }
    }

    /// Whether the signal itself is spent.
    pub fn advances_search(&self) -> (r: bool)
        ensures
            r == self.spends_signal(),
    {
        matches!(
            self,
            AbortReason::DriftExceeded | AbortReason::ArmedCutoffReached
            | AbortReason::ArmedDriftExceeded | AbortReason::FillTimeoutOrCutoff
        )
    }

    /// The name under which a reason is stored.
    pub open spec fn name(self) -> Seq<char> {
        match self {
            AbortReason::ViHalted => "vi_halted"@,
            AbortReason::DriftExceeded => "drift_exceeded"@,
            AbortReason::PriceFetchFailed => "price_fetch_failed"@,
            AbortReason::ArmedCutoffReached => "armed_cutoff_reached"@,
            AbortReason::ArmedDriftExceeded => "armed_drift_exceeded"@,
            AbortReason::ArmedStopped => "armed_stopped"@,
            AbortReason::ArmedAlreadyArmed => "armed_already_armed"@,
            AbortReason::Armed(why) => why@,
            AbortReason::Preempted => "preempted"@,
            AbortReason::PreemptedOnRetry => "preempted_on_retry"@,
            AbortReason::ApiErrorRetryFailed => "api_error_retry_failed"@,
            AbortReason::FillTimeoutOrCutoff => "fill_timeout_or_cutoff"@,
        }
    }

    /// The name under which a reason is stored.
    pub fn label(&self) -> (r: &'static str)
        ensures
            r@ == self.name(),
    {
        match *self {
            AbortReason::ViHalted => "vi_halted",
            AbortReason::DriftExceeded => "drift_exceeded",
            AbortReason::PriceFetchFailed => "price_fetch_failed",
            AbortReason::ArmedCutoffReached => "armed_cutoff_reached",
            AbortReason::ArmedDriftExceeded => "armed_drift_exceeded",
            AbortReason::ArmedStopped => "armed_stopped",
            AbortReason::ArmedAlreadyArmed => "armed_already_armed",
            AbortReason::Armed(why) => why,
            AbortReason::Preempted => "preempted",
            AbortReason::PreemptedOnRetry => "preempted_on_retry",
            AbortReason::ApiErrorRetryFailed => "api_error_retry_failed",
            AbortReason::FillTimeoutOrCutoff => "fill_timeout_or_cutoff",
        }
    }
}

/// Gives up an entry: a spent signal is left behind, the runner's own lock is freed, and it is
/// flat again.
pub fn abort_entry(
    state: &mut RunnerState,
    search: &mut LiveSignalState,
    lock: &mut PositionLockState,
    code: &str,
    signal_time: TimeOfDay,
    reason: &AbortReason,
    now_ms: u64,
)
    ensures
        *final(search) == (if reason.spends_signal() {
            old(search).past(signal_time)
        } else {
            *old(search)
        }),
        final(lock)@ == old(lock)@.released(code@),
        *final(state) == (RunnerState {
            execution_state: ExecutionState::Flat,
            last_flat_transition_ms: if old(state).execution_state is Flat {
                old(state).last_flat_transition_ms
            } else {
                Some(now_ms)
            },
            ..*old(state)
        }),
{
    if reason.advances_search() {
        search.give_up(signal_time);
    }
    release_lock_if_self_held(lock, code);
    let _ = state.transition_execution_state(ExecutionState::Flat, now_ms);
}

/// How a try to enter ended.
#[derive(Debug, Clone, Copy, PartialEq, Eq, Structural)]
pub enum EntryResult {
    Entered,
    /// A person has to look.
    Manual,
    /// Another stock asked to go first.
    Preempted,
    /// A passing failure, to be tried again after a while.
    Retryable { delay_ms: u64 },
    /// Not filled, or too late.
    Failed,
}

impl EntryResult {
    /// What an entry comes to for the round.  `retry_after` is the pause after which an order that
    /// failed or was refused may be tried again, where it may.
    pub open spec fn following(outcome: EntryOutcome, retry_after: Option<u64>) -> EntryResult {
        match outcome {
            EntryOutcome::Filled { .. } => EntryResult::Entered,
            EntryOutcome::PendingNotSaved | EntryOutcome::CancelUnverified => EntryResult::Manual,
            EntryOutcome::Cancelled { preempted: true } => EntryResult::Preempted,
            EntryOutcome::SubmitFailed | EntryOutcome::Rejected => match retry_after {
                Some(delay_ms) => EntryResult::Retryable { delay_ms },
                None => EntryResult::Failed,
            },
            _ => EntryResult::Failed,
        }
    }

    /// What an entry comes to for the round.
    pub fn of(outcome: EntryOutcome, retry_after: Option<u64>) -> (r: EntryResult)
        ensures
            r == Self::following(outcome, retry_after),
    {
        match outcome {
            EntryOutcome::Filled { .. } => EntryResult::Entered,
            EntryOutcome::PendingNotSaved | EntryOutcome::CancelUnverified => EntryResult::Manual,
            EntryOutcome::Cancelled { preempted } => if preempted {
                EntryResult::Preempted
            } else {
                EntryResult::Failed
            },
            EntryOutcome::SubmitFailed | EntryOutcome::Rejected => match retry_after {
                Some(delay_ms) => EntryResult::Retryable { delay_ms },
                None => EntryResult::Failed,
            },
            EntryOutcome::BalanceUnreadable => EntryResult::Failed,
        }
    }
}

/// Where a round stands.
#[derive(Debug, Clone, Copy, PartialEq, Eq, Structural)]
pub enum PollStage {
    /// Are there candles?
    Candles,
    /// Is a stage of the opening range over?
    Stages,
    /// Are the gates open?
    Gates,
    /// Is there a signal?
    Search,
    /// Is the lock to be had?
    Lock,
    /// Is trading halted?
    Halt,
    /// How far has the price run away?
    Drift,
    /// Does the signal hold?
    Watch,
    /// Enter.
    Enter,
    /// Enter, for the second time.
    EnterAgain { delay_ms: u64 },
    Done(PollOutcome),
}

/// How a round ended.
#[derive(Debug, Clone, Copy, PartialEq, Eq, Structural)]
pub enum PollOutcome {
    NoEntry,
    Entered,
    Manual,
}

/// What a round waits for.
#[derive(Debug, Clone, Copy)]
pub enum PollReply {
    Candles { any: bool },
    Stages { any: bool },
    /// The gates; `allowed`: it is not too late, and the stock is the one to be traded.
    Gates { bits: GateBits, allowed: bool },
    Search { found: bool },
    Lock { granted: bool },
    Halt { halted: bool },
    /// Whether the price ran away too far; `None`: the price could not be had.
    Drift { exceeded: Option<bool> },
    Watch(ArmedWaitOutcome),
    Entry(EntryResult),
}

/// What happens besides.
#[derive(Debug, Clone, Copy)]
pub enum PollEffect {
    Nothing,
    /// The gates are closed: the system cannot be relied on.
    Degrade(GateBits),
    /// The gates are open: the system can be relied on.
    Recover,
    /// The entry is given up.
    Abort(AbortReason),
}

/// One round of looking for an entry.
#[derive(Debug, Clone, Copy, PartialEq, Eq, Structural)]
pub struct PollFlow {
    pub stage: PollStage,
    /// The price is checked before entering.
    pub drift_guard: bool,
}

impl PollFlow {
    /// Whether a reply is the one that is waited for.
    pub open spec fn awaits(self, reply: PollReply) -> bool {
        match self.stage {
            PollStage::Candles => reply is Candles,
            PollStage::Stages => reply is Stages,
            PollStage::Gates => reply is Gates,
            PollStage::Search => reply is Search,
            PollStage::Lock => reply is Lock,
            PollStage::Halt => reply is Halt,
            PollStage::Drift => reply is Drift,
            PollStage::Watch => reply is Watch,
            PollStage::Enter => reply is Entry,
            PollStage::EnterAgain { .. } => reply is Entry,
            PollStage::Done(_) => false,
        }
    }

    /// At another stage, with nothing happening besides.
    pub open spec fn on(self, stage: PollStage) -> (PollStage, PollEffect) {
        (stage, PollEffect::Nothing)
    }

    /// What giving up an entry leads to.
    pub open spec fn given_up(reason: AbortReason) -> (PollStage, PollEffect) {
        (PollStage::Done(PollOutcome::NoEntry), PollEffect::Abort(reason))
    }

    /// Where a watch leads to.
    pub open spec fn watched(self, outcome: ArmedWaitOutcome) -> (PollStage, PollEffect) {
        match outcome {
            ArmedWaitOutcome::Ready => self.on(PollStage::Enter),
            ArmedWaitOutcome::CutoffReached => PollFlow::given_up(AbortReason::ArmedCutoffReached),
            ArmedWaitOutcome::PreflightFailed(why) => PollFlow::given_up(AbortReason::Armed(why)),
            ArmedWaitOutcome::DriftExceeded => PollFlow::given_up(AbortReason::ArmedDriftExceeded),
            ArmedWaitOutcome::Stopped => PollFlow::given_up(AbortReason::ArmedStopped),
            ArmedWaitOutcome::Aborted(why) => PollFlow::given_up(AbortReason::Armed(why)),
            ArmedWaitOutcome::AlreadyArmed => PollFlow::given_up(AbortReason::ArmedAlreadyArmed),
        }
    }

    /// Where a try to enter leads to.
    pub open spec fn entered(self, result: EntryResult) -> (PollStage, PollEffect) {
        let again = self.stage is EnterAgain;
        match result {
            EntryResult::Entered => self.on(PollStage::Done(PollOutcome::Entered)),
            EntryResult::Manual => self.on(PollStage::Done(PollOutcome::Manual)),
            EntryResult::Preempted => PollFlow::given_up(
                if again {
                    AbortReason::PreemptedOnRetry
                } else {
                    AbortReason::Preempted
                },
            ),
            EntryResult::Retryable { delay_ms } => if again {
                PollFlow::given_up(AbortReason::ApiErrorRetryFailed)
            } else {
                self.on(
                    PollStage::EnterAgain {
                        delay_ms: if delay_ms < MIN_RETRY_DELAY_MS {
                            MIN_RETRY_DELAY_MS
                        } else {
                            delay_ms
                        },
                    },
                )
            },
            EntryResult::Failed => PollFlow::given_up(
                if again {
                    AbortReason::ApiErrorRetryFailed
                } else {
                    AbortReason::FillTimeoutOrCutoff
                },
            ),
        }
    }

    /// Where a reply leads to, and what happens besides.
    pub open spec fn move_of(self, reply: PollReply) -> (PollStage, PollEffect) {
        let stop = PollStage::Done(PollOutcome::NoEntry);
        match reply {
            PollReply::Candles { any } => self.on(
                if any {
                    PollStage::Stages
                } else {
                    stop
                },
            ),
            PollReply::Stages { any } => self.on(
                if any {
                    PollStage::Gates
                } else {
                    stop
                },
            ),
            PollReply::Gates { bits, allowed } => if !bits.open() {
                (stop, PollEffect::Degrade(bits))
            } else if !allowed {
                (stop, PollEffect::Recover)
            } else {
                (PollStage::Search, PollEffect::Recover)
            },
            PollReply::Search { found } => self.on(
                if found {
                    PollStage::Lock
                } else {
                    stop
                },
            ),
            PollReply::Lock { granted } => self.on(
                if granted {
                    PollStage::Halt
                } else {
                    stop
                },
            ),
            PollReply::Halt { halted } => if halted {
                PollFlow::given_up(AbortReason::ViHalted)
            } else if self.drift_guard {
                self.on(PollStage::Drift)
            } else {
                self.on(PollStage::Watch)
            },
            PollReply::Drift { exceeded } => match exceeded {
                None => PollFlow::given_up(AbortReason::PriceFetchFailed),
                Some(true) => PollFlow::given_up(AbortReason::DriftExceeded),
                Some(false) => self.on(PollStage::Watch),
            },
            PollReply::Watch(outcome) => self.watched(outcome),
            PollReply::Entry(result) => self.entered(result),
        }
    }

    /// The round after a reply.
    pub open spec fn next(self, reply: PollReply) -> PollFlow {
        PollFlow { stage: self.move_of(reply).0, ..self }
    }

    /// A new round.
    pub fn begin(drift_guard: bool) -> (r: PollFlow)
        ensures
            r == (PollFlow { stage: PollStage::Candles, drift_guard }),
    {
        PollFlow { stage: PollStage::Candles, drift_guard }
    }

    fn on_watch(outcome: ArmedWaitOutcome) -> (r: Option<AbortReason>)
        ensures
            match r {
                None => outcome is Ready,
                Some(reason) => forall|flow: PollFlow| #[trigger]
                    flow.watched(outcome) == PollFlow::given_up(reason),
            },
    {
        match outcome {
            ArmedWaitOutcome::Ready => None,
            ArmedWaitOutcome::CutoffReached => Some(AbortReason::ArmedCutoffReached),
            ArmedWaitOutcome::PreflightFailed(why) => Some(AbortReason::Armed(why)),
            ArmedWaitOutcome::DriftExceeded => Some(AbortReason::ArmedDriftExceeded),
            ArmedWaitOutcome::Stopped => Some(AbortReason::ArmedStopped),
            ArmedWaitOutcome::Aborted(why) => Some(AbortReason::Armed(why)),
            ArmedWaitOutcome::AlreadyArmed => Some(AbortReason::ArmedAlreadyArmed),
        }
    }

    fn on_entry(&self, result: EntryResult) -> (r: (PollStage, PollEffect))
        ensures
            r == self.entered(result),
    {
        let again: bool = matches!(self.stage, PollStage::EnterAgain { .. });
        let reason: AbortReason = match result {
            EntryResult::Entered => {
                return (PollStage::Done(PollOutcome::Entered), PollEffect::Nothing);
            },
            EntryResult::Manual => {
                return (PollStage::Done(PollOutcome::Manual), PollEffect::Nothing);
            },
            EntryResult::Preempted => if again {
                AbortReason::PreemptedOnRetry
            } else {
                AbortReason::Preempted
            },
            EntryResult::Retryable { delay_ms } => {
                if !again {
                    let delay_ms: u64 = if delay_ms < MIN_RETRY_DELAY_MS {
                        MIN_RETRY_DELAY_MS
                    } else {
                        delay_ms
                    };
                    return (PollStage::EnterAgain { delay_ms }, PollEffect::Nothing);
                }
                AbortReason::ApiErrorRetryFailed
            },
            EntryResult::Failed => if again {
                AbortReason::ApiErrorRetryFailed
            } else {
                AbortReason::FillTimeoutOrCutoff
            },
        };
        (PollStage::Done(PollOutcome::NoEntry), PollEffect::Abort(reason))
    }

    /// Takes in what came back.
    pub fn step(&mut self, reply: PollReply) -> (effect: PollEffect)
        requires
            old(self).awaits(reply),
        ensures
            *final(self) == old(self).next(reply),
            effect == old(self).move_of(reply).1,
    {
        let stop: PollStage = PollStage::Done(PollOutcome::NoEntry);
        let (stage, effect): (PollStage, PollEffect) = match reply {
            PollReply::Candles { any } => if any {
                (PollStage::Stages, PollEffect::Nothing)
            } else {
                (stop, PollEffect::Nothing)
            },
            PollReply::Stages { any } => if any {
                (PollStage::Gates, PollEffect::Nothing)
            } else {
                (stop, PollEffect::Nothing)
            },
            PollReply::Gates { bits, allowed } => if !bits.is_open() {
                (stop, PollEffect::Degrade(bits))
            } else if !allowed {
                (stop, PollEffect::Recover)
            } else {
                (PollStage::Search, PollEffect::Recover)
            },
            PollReply::Search { found } => if found {
                (PollStage::Lock, PollEffect::Nothing)
            } else {
                (stop, PollEffect::Nothing)
            },
            PollReply::Lock { granted } => if granted {
                (PollStage::Halt, PollEffect::Nothing)
            } else {
                (stop, PollEffect::Nothing)
            },
            PollReply::Halt { halted } => if halted {
                (stop, PollEffect::Abort(AbortReason::ViHalted))
            } else if self.drift_guard {
                (PollStage::Drift, PollEffect::Nothing)
            } else {
                (PollStage::Watch, PollEffect::Nothing)
            },
            PollReply::Drift { exceeded } => match exceeded {
                None => (stop, PollEffect::Abort(AbortReason::PriceFetchFailed)),
                Some(far) => if far {
                    (stop, PollEffect::Abort(AbortReason::DriftExceeded))
                } else {
                    (PollStage::Watch, PollEffect::Nothing)
                },
            },
            PollReply::Watch(outcome) => match PollFlow::on_watch(outcome) {
                None => (PollStage::Enter, PollEffect::Nothing),
                Some(reason) => {
                    assert(old(self).watched(outcome) == PollFlow::given_up(reason));
                    (stop, PollEffect::Abort(reason))
                },
            },
            PollReply::Entry(result) => self.on_entry(result),
        };
        self.stage = stage;
        effect
    }
}

impl PollStage {
    /// The lock was granted on the way here, and is not given up yet.
    pub open spec fn behind_lock(self) -> bool {
        match self {
            PollStage::Halt | PollStage::Drift | PollStage::Watch | PollStage::Enter
            | PollStage::EnterAgain { .. } => true,
            _ => false,
        }
    }
}

/// Once the lock is granted, a round either goes on behind the lock, or ends with a position, or
/// ends with a person, or gives the entry up, which frees the lock.  It is given up nowhere else.
pub proof fn lock_is_never_left_behind(flow: PollFlow, reply: PollReply)
    requires
        flow.awaits(reply),
    ensures
        flow.stage.behind_lock() ==> (flow.next(reply).stage.behind_lock() || flow.next(reply).stage
            == PollStage::Done(PollOutcome::Entered) || flow.next(reply).stage == PollStage::Done(
            PollOutcome::Manual,
        ) || flow.move_of(reply).1 is Abort),
        flow.move_of(reply).1 is Abort ==> flow.stage.behind_lock() && flow.next(reply).stage
            == PollStage::Done(PollOutcome::NoEntry),
        flow.next(reply).stage.behind_lock() && !flow.stage.behind_lock() ==> reply
            == (PollReply::Lock { granted: true }),
{
}

/// The round after a number of replies.
pub open spec fn poll_run(flow: PollFlow, replies: Seq<PollReply>) -> PollFlow
    decreases replies.len(),
{
    if replies.len() == 0 {
        flow
    } else {
        poll_run(flow, replies.drop_last()).next(replies.last())
    }
}

/// Each reply came when it was waited for.
pub open spec fn poll_followed(flow: PollFlow, replies: Seq<PollReply>) -> bool
    decreases replies.len(),
{
    replies.len() == 0 || (poll_followed(flow, replies.drop_last()) && poll_run(
        flow,
        replies.drop_last(),
    ).awaits(replies.last()))
}

/// How many tries to enter were answered.
pub open spec fn tries(replies: Seq<PollReply>) -> int
    decreases replies.len(),
{
    if replies.len() == 0 {
        0
    } else {
        tries(replies.drop_last()) + (if replies.last() is Entry {
            1int
        } else {
            0
        })
    }
}

/// A round tries to enter at most twice.
pub proof fn at_most_two_tries(drift_guard: bool, replies: Seq<PollReply>)
    requires
        poll_followed(PollFlow { stage: PollStage::Candles, drift_guard }, replies),
    ensures
        tries(replies) <= 2,
        ({
            let stage = poll_run(PollFlow { stage: PollStage::Candles, drift_guard }, replies).stage;
            &&& !(stage is Done) && !(stage is EnterAgain) ==> tries(replies) == 0
            &&& stage is EnterAgain ==> tries(replies) == 1
        }),
    decreases replies.len(),
{
    if replies.len() > 0 {
        at_most_two_tries(drift_guard, replies.drop_last());
    }
}

/// Nothing is entered past a closed gate: the reply behind which a round goes on to search showed
/// every gate open.
pub proof fn closed_gates_end_the_round(flow: PollFlow, bits: GateBits, allowed: bool)
    requires
        flow.stage is Gates,
        !bits.open() || !allowed,
    ensures
        flow.next(PollReply::Gates { bits, allowed }).stage == PollStage::Done(
            PollOutcome::NoEntry,
        ),
{
}

/// A reply that lets a round go on.
pub open spec fn says_yes(reply: PollReply) -> bool {
    match reply {
        PollReply::Candles { any } => any,
        PollReply::Stages { any } => any,
        PollReply::Gates { bits, allowed } => allowed && bits.subscription_health_ok
            && !bits.quote_fault && bits.spread_ok && bits.nav_gate_ok && bits.regime_confirmed,
        PollReply::Search { found } => found,
        PollReply::Lock { granted } => granted,
        PollReply::Halt { halted } => !halted,
        PollReply::Drift { exceeded } => exceeded == Some(false),
        PollReply::Watch(outcome) => outcome is Ready,
        PollReply::Entry(result) => result is Retryable,
    }
}

/// How many questions were answered before a stage.
pub open spec fn questions_before(stage: PollStage, drift_guard: bool) -> int {
    match stage {
        PollStage::Candles => 0,
        PollStage::Stages => 1,
        PollStage::Gates => 2,
        PollStage::Search => 3,
        PollStage::Lock => 4,
        PollStage::Halt => 5,
        PollStage::Drift => 6,
        PollStage::Watch => if drift_guard {
            7
        } else {
            6
        },
        PollStage::Enter => if drift_guard {
            8
        } else {
            7
        },
        PollStage::EnterAgain { .. } => if drift_guard {
            9
        } else {
            8
        },
        PollStage::Done(_) => 0,
    }
}

/// The questions of a round, in their order.
pub open spec fn nth_question(reply: PollReply, n: int, drift_guard: bool) -> bool {
    if n == 0 {
        reply is Candles
    } else if n == 1 {
        reply is Stages
    } else if n == 2 {
        reply is Gates
    } else if n == 3 {
        reply is Search
    } else if n == 4 {
        reply is Lock
    } else if n == 5 {
        reply is Halt
    } else if n == 6 && drift_guard {
        reply is Drift
    } else if n == 6 || (n == 7 && drift_guard) {
        reply is Watch
    } else {
        reply is Entry
    }
}

/// A round goes on only as long as every answer was a yes, to all the questions in their order.
/// So an entry is tried only where there were candles and a stage, every gate was open and the
/// entry allowed, a signal was found, the lock was granted, trading was not halted, the price had
/// not run away, and the watch found the signal ready.
pub proof fn rounds_go_on_with_every_yes(drift_guard: bool, replies: Seq<PollReply>)
    requires
        poll_followed(PollFlow { stage: PollStage::Candles, drift_guard }, replies),
    ensures
        ({
            let flow = poll_run(PollFlow { stage: PollStage::Candles, drift_guard }, replies);
            &&& flow.drift_guard == drift_guard
            &&& !(flow.stage is Done) ==> {
                &&& replies.len() == questions_before(flow.stage, drift_guard)
                &&& flow.stage is Drift ==> drift_guard
                &&& forall|i: int|
                    0 <= i < replies.len() ==> says_yes(#[trigger] replies[i]) && nth_question(
                        replies[i],
                        i,
                        drift_guard,
                    )
            }
        }),
    decreases replies.len(),
{
    if replies.len() > 0 {
        let head = replies.drop_last();
        let n = replies.len() - 1;
        rounds_go_on_with_every_yes(drift_guard, head);
        let before = poll_run(PollFlow { stage: PollStage::Candles, drift_guard }, head);
        assert(replies.last() == replies[n]);
        assert forall|i: int| 0 <= i < n implies #[trigger] replies[i] == head[i] by {}
        assert(before.awaits(replies[n]));
    }
}

/// A yes is never taken for a no: where the answer lets the round go on, it goes on; where it does
/// not, the round ends.
pub proof fn a_yes_leads_on(flow: PollFlow, reply: PollReply)
    requires
        flow.awaits(reply),
        !(reply is Entry),
    ensures
        says_yes(reply) <==> !(flow.next(reply).stage is Done),
        !says_yes(reply) ==> flow.next(reply).stage == PollStage::Done(PollOutcome::NoEntry),
{
}

/// What a try to enter comes to: a position, a person, another try after half a second at least,
/// which comes only once, or a round without an entry.
pub proof fn tries_end_the_round(flow: PollFlow, result: EntryResult)
    requires
        flow.awaits(PollReply::Entry(result)),
    ensures
        ({
            let stage = flow.next(PollReply::Entry(result)).stage;
            match result {
                EntryResult::Entered => stage == PollStage::Done(PollOutcome::Entered),
                EntryResult::Manual => stage == PollStage::Done(PollOutcome::Manual),
                EntryResult::Retryable { delay_ms } => if flow.stage is Enter {
                    stage matches PollStage::EnterAgain { delay_ms: d } && d >= 500 && d >= delay_ms
                        && (d == 500 || d == delay_ms)
                } else {
                    stage == PollStage::Done(PollOutcome::NoEntry)
                },
                _ => stage == PollStage::Done(PollOutcome::NoEntry),
            }
        }),
{
}

/// Every entry that is given up is given up for what was in its way, and only an entry that the
/// price or the time has left behind spends its signal.
pub proof fn give_ups_have_their_reason(flow: PollFlow, reply: PollReply)
    requires
        flow.awaits(reply),
    ensures
        flow.move_of(reply).1 matches PollEffect::Abort(reason) ==> {
            &&& match reply {
                PollReply::Halt { .. } => reason is ViHalted,
                PollReply::Drift { exceeded } => if exceeded is None {
                    reason is PriceFetchFailed
                } else {
                    reason is DriftExceeded
                },
                PollReply::Watch(outcome) => match outcome {
                    ArmedWaitOutcome::CutoffReached => reason is ArmedCutoffReached,
                    ArmedWaitOutcome::DriftExceeded => reason is ArmedDriftExceeded,
                    ArmedWaitOutcome::Stopped => reason is ArmedStopped,
                    ArmedWaitOutcome::AlreadyArmed => reason is ArmedAlreadyArmed,
                    ArmedWaitOutcome::PreflightFailed(why) => reason == AbortReason::Armed(why),
                    ArmedWaitOutcome::Aborted(why) => reason == AbortReason::Armed(why),
                    ArmedWaitOutcome::Ready => false,
                },
                PollReply::Entry(result) => match result {
                    EntryResult::Preempted => if flow.stage is EnterAgain {
                        reason is PreemptedOnRetry
                    } else {
                        reason is Preempted
                    },
                    _ => if flow.stage is EnterAgain {
                        reason is ApiErrorRetryFailed
                    } else {
                        reason is FillTimeoutOrCutoff
                    },
                },
                _ => false,
            }
            &&& reason.spends_signal() <==> (reason is DriftExceeded || reason is ArmedDriftExceeded
                || reason is ArmedCutoffReached || reason is FillTimeoutOrCutoff)
        },
        flow.move_of(reply).1 is Degrade <==> (reply matches PollReply::Gates { bits, .. } && !(
        bits.subscription_health_ok && !bits.quote_fault && bits.spread_ok && bits.nav_gate_ok
            && bits.regime_confirmed)),
        flow.move_of(reply).1 is Recover <==> (reply matches PollReply::Gates { bits, .. }
            && bits.subscription_health_ok && !bits.quote_fault && bits.spread_ok
            && bits.nav_gate_ok && bits.regime_confirmed),
{
}

/// What an order came to decides what the round does: a fill is a position, what cannot be told is
/// for a person, an order that another stock displaced is given up for it, and one that never
/// reached the market may be tried again where the broker says when.
pub proof fn orders_decide_the_round(outcome: EntryOutcome, retry_after: Option<u64>)
    ensures
        ({
            let result = EntryResult::following(outcome, retry_after);
            &&& result is Entered <==> outcome is Filled
            &&& result is Manual <==> outcome is PendingNotSaved || outcome is CancelUnverified
            &&& result is Preempted <==> outcome == (EntryOutcome::Cancelled { preempted: true })
            &&& result is Retryable <==> (outcome is SubmitFailed || outcome is Rejected)
                && retry_after is Some
            &&& result matches EntryResult::Retryable { delay_ms } ==> retry_after == Some(delay_ms)
        }),
{
}

/// A stage of the opening range is searched where entries on it are allowed and three candles have
/// come since its end.
pub proof fn three_candles_make_a_search(
    cfg: LiveRunnerConfig,
    stage: AvailableOrStage,
    candles: Seq<MinuteCandle>,
    after: Option<TimeOfDay>,
)
    ensures
        worth_searching(cfg, stage, candles, after) <==> cfg.allows(stage.0@) && search_window(
            candles,
            stage.3,
            after,
        ).len() >= 3,
{
}

} // verus!
