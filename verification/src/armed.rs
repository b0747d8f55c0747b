//! The short watch between a signal and its order.

use crate::clock::TimeOfDay;
use crate::preflight::GateBits;
use crate::text::same_text;
use vstd::prelude::*;

verus! {

/// How a watch ended.
#[derive(Debug, Clone, Copy)]
pub enum ArmedWaitOutcome {
    /// The conditions held: enter.
    Ready,
    /// The cutoff for entries came.
    CutoffReached,
    /// A gate closed.
    PreflightFailed(&'static str),
    /// The price ran away.
    DriftExceeded,
    /// The runner was stopped.
    Stopped,
    /// The system called the watch off.
    Aborted(&'static str),
    /// The same signal is being watched already.
    AlreadyArmed,
}

impl ArmedWaitOutcome {
    /// The name under which an outcome is stored.
    pub open spec fn name(self) -> Seq<char> {
        match self {
            ArmedWaitOutcome::Ready => "ready"@,
            ArmedWaitOutcome::CutoffReached => "cutoff_reached"@,
            ArmedWaitOutcome::PreflightFailed(_) => "preflight_failed"@,
            ArmedWaitOutcome::DriftExceeded => "drift_exceeded"@,
            ArmedWaitOutcome::Stopped => "stopped"@,
            ArmedWaitOutcome::Aborted(_) => "aborted"@,
            ArmedWaitOutcome::AlreadyArmed => "already_armed"@,
        }
    }

    /// Nothing went wrong.
    pub open spec fn harmless(self) -> bool {
        !(self is PreflightFailed || self is DriftExceeded || self is Aborted)
    }

    /// The name under which an outcome is stored.
    pub fn label(&self) -> (r: &'static str)
        ensures
            r@ == self.name(),
    {
        match self {
            ArmedWaitOutcome::Ready => "ready",
            ArmedWaitOutcome::CutoffReached => "cutoff_reached",
            ArmedWaitOutcome::PreflightFailed(_) => "preflight_failed",
            ArmedWaitOutcome::DriftExceeded => "drift_exceeded",
            ArmedWaitOutcome::Stopped => "stopped",
            ArmedWaitOutcome::Aborted(_) => "aborted",
            ArmedWaitOutcome::AlreadyArmed => "already_armed",
        }
    }

    /// What exactly went wrong, where an outcome says so.
    pub fn detail(&self) -> (r: Option<&'static str>)
        ensures
            r == (match *self {
                ArmedWaitOutcome::PreflightFailed(why) => Some(why),
                ArmedWaitOutcome::Aborted(why) => Some(why),
                _ => None,
            }),
    {
        match self {
            ArmedWaitOutcome::PreflightFailed(why) => Some(*why),
            ArmedWaitOutcome::Aborted(why) => Some(*why),
            _ => None,
        }
    }

    /// The text under which the reason of an outcome is stored: its name, and behind a colon what
    /// exactly went wrong, where it says so.
    pub open spec fn reason_words(self) -> Seq<char> {
        match self {
            ArmedWaitOutcome::PreflightFailed(why) | ArmedWaitOutcome::Aborted(why) => {
                if why@.len() == 0 {
                    self.name()
                } else {
                    self.name() + ":"@ + why@
                }
            },
            _ => self.name(),
        }
    }

    /// The text under which the reason of an outcome is stored.
    pub fn journal_reason(&self) -> (r: String)
        ensures
            r@ == self.reason_words(),
    {
        match self.detail() {
            Some(why) => {
                proof {
                    reveal_strlit("");
                }
                if same_text(why, "") {
                    self.label().to_owned()
                } else {
                    assert(why@ =~= Seq::<char>::empty() ==> why@ == ""@);
                    self.label().to_owned().concat(":").concat(why)
                }
            },
            None => self.label().to_owned(),
        }
    }

    /// How loudly an outcome is logged.
    pub fn severity(&self) -> (r: &'static str)
        ensures
            r@ == (if self.harmless() {
                "info"@
            } else {
                "warning"@
            }),
    {
        match self {
            ArmedWaitOutcome::Ready => "info",
            ArmedWaitOutcome::CutoffReached => "info",
            ArmedWaitOutcome::Stopped => "info",
            ArmedWaitOutcome::AlreadyArmed => "info",
            ArmedWaitOutcome::PreflightFailed(_) => "warning",
            ArmedWaitOutcome::DriftExceeded => "warning",
            ArmedWaitOutcome::Aborted(_) => "warning",
        }
    }
}

/// How watches ended so far, and how long they took.
#[derive(Debug, Clone, Copy, PartialEq, Eq, Structural)]
pub struct ArmedWatchStats {
    pub ready_count: u64,
    pub cutoff_count: u64,
    pub preflight_failed_count: u64,
    pub drift_exceeded_count: u64,
    pub stopped_count: u64,
    pub aborted_count: u64,
    pub already_armed_count: u64,
    pub total_duration_ms: u64,
    pub max_duration_ms: u64,
    pub ready_duration_ms_sum: u64,
    pub ready_duration_ms_max: u64,
    pub aborted_duration_ms_sum: u64,
    pub aborted_duration_ms_max: u64,
}

/// A sum that stops at the largest value.
pub open spec fn capped_sum(a: u64, b: u64) -> u64 {
    if a + b <= u64::MAX {
        (a + b) as u64
    } else {
        u64::MAX
    }
}

/// The larger of two durations.
pub open spec fn longer(a: u64, b: u64) -> u64 {
    if b > a {
        b
    } else {
        a
    }
}

/// A count one higher where something happened.
pub open spec fn counted(n: u64, happened: bool) -> u64 {
    if happened {
        (n + 1) as u64
    } else {
        n
    }
}

impl Default for ArmedWatchStats {
    fn default() -> (r: Self)
        ensures
            r == Self::nothing(),
    {
        ArmedWatchStats {
            ready_count: 0,
            cutoff_count: 0,
            preflight_failed_count: 0,
            drift_exceeded_count: 0,
            stopped_count: 0,
            aborted_count: 0,
            already_armed_count: 0,
            total_duration_ms: 0,
            max_duration_ms: 0,
            ready_duration_ms_sum: 0,
            ready_duration_ms_max: 0,
            aborted_duration_ms_sum: 0,
            aborted_duration_ms_max: 0,
        }
    }
}

impl ArmedWatchStats {
    /// No watch has ended.
    pub open spec fn nothing() -> ArmedWatchStats {
        ArmedWatchStats {
            ready_count: 0,
            cutoff_count: 0,
            preflight_failed_count: 0,
            drift_exceeded_count: 0,
            stopped_count: 0,
            aborted_count: 0,
            already_armed_count: 0,
            total_duration_ms: 0,
            max_duration_ms: 0,
            ready_duration_ms_sum: 0,
            ready_duration_ms_max: 0,
            aborted_duration_ms_sum: 0,
            aborted_duration_ms_max: 0,
        }
    }

    /// All watches that ended.
    pub open spec fn ended(self) -> int {
        self.ready_count + self.cutoff_count + self.preflight_failed_count
            + self.drift_exceeded_count + self.stopped_count + self.aborted_count
            + self.already_armed_count
    }

    /// How many watches ended as this one did.
    pub open spec fn count_of(self, outcome: ArmedWaitOutcome) -> u64 {
        match outcome {
            ArmedWaitOutcome::Ready => self.ready_count,
            ArmedWaitOutcome::CutoffReached => self.cutoff_count,
            ArmedWaitOutcome::PreflightFailed(_) => self.preflight_failed_count,
            ArmedWaitOutcome::DriftExceeded => self.drift_exceeded_count,
            ArmedWaitOutcome::Stopped => self.stopped_count,
            ArmedWaitOutcome::Aborted(_) => self.aborted_count,
            ArmedWaitOutcome::AlreadyArmed => self.already_armed_count,
        }
    }

    /// With one more watch.  Every watch counts under its outcome and towards the overall
    /// durations; watches that ended ready or aborted also count towards their own.
    pub open spec fn with(self, outcome: ArmedWaitOutcome, duration_ms: u64) -> ArmedWatchStats {
        let ready = outcome is Ready;
        let aborted = outcome is Aborted;
        ArmedWatchStats {
            ready_count: counted(self.ready_count, ready),
            cutoff_count: counted(self.cutoff_count, outcome is CutoffReached),
            preflight_failed_count: counted(
                self.preflight_failed_count,
                outcome is PreflightFailed,
            ),
            drift_exceeded_count: counted(self.drift_exceeded_count, outcome is DriftExceeded),
            stopped_count: counted(self.stopped_count, outcome is Stopped),
            aborted_count: counted(self.aborted_count, aborted),
            already_armed_count: counted(self.already_armed_count, outcome is AlreadyArmed),
            total_duration_ms: capped_sum(self.total_duration_ms, duration_ms),
            max_duration_ms: longer(self.max_duration_ms, duration_ms),
            ready_duration_ms_sum: if ready {
                capped_sum(self.ready_duration_ms_sum, duration_ms)
            } else {
                self.ready_duration_ms_sum
            },
            ready_duration_ms_max: if ready {
                longer(self.ready_duration_ms_max, duration_ms)
            } else {
                self.ready_duration_ms_max
            },
            aborted_duration_ms_sum: if aborted {
                capped_sum(self.aborted_duration_ms_sum, duration_ms)
            } else {
                self.aborted_duration_ms_sum
            },
            aborted_duration_ms_max: if aborted {
                longer(self.aborted_duration_ms_max, duration_ms)
            } else {
                self.aborted_duration_ms_max
            },
        }
    }

    /// Whether one more watch that ended so can be counted.
    pub fn has_room(&self, outcome: &ArmedWaitOutcome) -> (r: bool)
        ensures
            r == (self.count_of(*outcome) < u64::MAX),
    {
        let count: u64 = match outcome {
            ArmedWaitOutcome::Ready => self.ready_count,
            ArmedWaitOutcome::CutoffReached => self.cutoff_count,
            ArmedWaitOutcome::PreflightFailed(_) => self.preflight_failed_count,
            ArmedWaitOutcome::DriftExceeded => self.drift_exceeded_count,
            ArmedWaitOutcome::Stopped => self.stopped_count,
            ArmedWaitOutcome::Aborted(_) => self.aborted_count,
            ArmedWaitOutcome::AlreadyArmed => self.already_armed_count,
        };
        count < u64::MAX
    }

    /// Counts one more watch.
    pub fn record(&mut self, outcome: &ArmedWaitOutcome, duration_ms: u64)
        requires
            old(self).count_of(*outcome) < u64::MAX,
        ensures
            *final(self) == old(self).with(*outcome, duration_ms),
    {
        match outcome {
            ArmedWaitOutcome::Ready => {
                self.ready_count = self.ready_count + 1;
                self.ready_duration_ms_sum = self.ready_duration_ms_sum.saturating_add(duration_ms);
                if duration_ms > self.ready_duration_ms_max {
                    self.ready_duration_ms_max = duration_ms;
                }
            },
            ArmedWaitOutcome::CutoffReached => {
                self.cutoff_count = self.cutoff_count + 1;
            },
            ArmedWaitOutcome::PreflightFailed(_) => {
                self.preflight_failed_count = self.preflight_failed_count + 1;
            },
            ArmedWaitOutcome::DriftExceeded => {
                self.drift_exceeded_count = self.drift_exceeded_count + 1;
            },
            ArmedWaitOutcome::Stopped => {
                self.stopped_count = self.stopped_count + 1;
            },
            ArmedWaitOutcome::Aborted(_) => {
                self.aborted_count = self.aborted_count + 1;
                self.aborted_duration_ms_sum =
                self.aborted_duration_ms_sum.saturating_add(duration_ms);
                if duration_ms > self.aborted_duration_ms_max {
                    self.aborted_duration_ms_max = duration_ms;
                }
            },
            ArmedWaitOutcome::AlreadyArmed => {
                self.already_armed_count = self.already_armed_count + 1;
            },
        }
        self.total_duration_ms = self.total_duration_ms.saturating_add(duration_ms);
        if duration_ms > self.max_duration_ms {
            self.max_duration_ms = duration_ms;
        }
    }

    /// All watches that ended.
    pub fn total_count(&self) -> (r: u64)
        requires
            self.ended() <= u64::MAX,
        ensures
            r == self.ended(),
    {
        self.ready_count + self.cutoff_count + self.preflight_failed_count
            + self.drift_exceeded_count + self.stopped_count + self.aborted_count
            + self.already_armed_count
    }

    /// The duration and the number of the watches that ended ready, where there are any.  Their
    /// quotient is the average.
    pub fn ready_avg_duration_ms(&self) -> (r: Option<(u64, u64)>)
        ensures
            r == (if self.ready_count == 0 {
                None
            } else {
                Some((self.ready_duration_ms_sum, self.ready_count))
            }),
    {
        if self.ready_count == 0 {
            None
        } else {
            Some((self.ready_duration_ms_sum, self.ready_count))
        }
    }

    /// The duration and the number of the watches that were called off, where there are any.
    /// Their quotient is the average.
    pub fn aborted_avg_duration_ms(&self) -> (r: Option<(u64, u64)>)
        ensures
            r == (if self.aborted_count == 0 {
                None
            } else {
                Some((self.aborted_duration_ms_sum, self.aborted_count))
            }),
    {
        if self.aborted_count == 0 {
            None
        } else {
            Some((self.aborted_duration_ms_sum, self.aborted_count))
        }
    }
}

/// One watch after another.
pub open spec fn recorded_all(
    stats: ArmedWatchStats,
    watches: Seq<(ArmedWaitOutcome, u64)>,
) -> ArmedWatchStats
    decreases watches.len(),
{
    if watches.len() == 0 {
        stats
    } else {
        recorded_all(stats, watches.drop_last()).with(watches.last().0, watches.last().1)
    }
}

/// Every watch is counted exactly once, and the longest one is known.
pub proof fn every_watch_is_counted(watches: Seq<(ArmedWaitOutcome, u64)>)
    requires
        watches.len() <= u64::MAX,
    ensures
        recorded_all(ArmedWatchStats::nothing(), watches).ended() == watches.len(),
        forall|i: int|
            0 <= i < watches.len() ==> (#[trigger] watches[i]).1 <= recorded_all(
                ArmedWatchStats::nothing(),
                watches,
            ).max_duration_ms,
    decreases watches.len(),
{
    if watches.len() > 0 {
        every_watch_is_counted(watches.drop_last());
        let before = recorded_all(ArmedWatchStats::nothing(), watches.drop_last());
        assert(before.ended() == watches.len() - 1);
        assert forall|i: int| 0 <= i < watches.len() implies (#[trigger] watches[i]).1
            <= recorded_all(ArmedWatchStats::nothing(), watches).max_duration_ms by {
            if i < watches.len() - 1 {
                assert(watches.drop_last()[i] == watches[i]);
            }
        }
    }
}

/// It does not matter in which order two watches are counted, even where a duration is capped.
pub proof fn order_of_watches_does_not_matter(
    stats: ArmedWatchStats,
    a: ArmedWaitOutcome,
    x: u64,
    b: ArmedWaitOutcome,
    y: u64,
)
    requires
        stats.count_of(a) <= u64::MAX - 2,
        stats.count_of(b) <= u64::MAX - 2,
    ensures
        stats.with(a, x).with(b, y) == stats.with(b, y).with(a, x),
{
}

/// Whether two watches ended in the same way, whatever the reasons given.
pub open spec fn same_kind(a: ArmedWaitOutcome, b: ArmedWaitOutcome) -> bool {
    match a {
        ArmedWaitOutcome::Ready => b is Ready,
        ArmedWaitOutcome::CutoffReached => b is CutoffReached,
        ArmedWaitOutcome::PreflightFailed(_) => b is PreflightFailed,
        ArmedWaitOutcome::DriftExceeded => b is DriftExceeded,
        ArmedWaitOutcome::Stopped => b is Stopped,
        ArmedWaitOutcome::Aborted(_) => b is Aborted,
        ArmedWaitOutcome::AlreadyArmed => b is AlreadyArmed,
    }
}

/// A watch is counted under its own outcome and no other.
pub proof fn only_the_own_count_grows(
    stats: ArmedWatchStats,
    outcome: ArmedWaitOutcome,
    duration_ms: u64,
    other: ArmedWaitOutcome,
)
    requires
        stats.count_of(outcome) < u64::MAX,
    ensures
        stats.with(outcome, duration_ms).count_of(outcome) == stats.count_of(outcome) + 1,
        stats.with(outcome, duration_ms).ended() == stats.ended() + 1,
        !same_kind(outcome, other) ==> stats.with(outcome, duration_ms).count_of(other)
            == stats.count_of(other),
{
}

/// Outcomes of different kinds have different names.
pub proof fn outcome_names_are_distinct(a: ArmedWaitOutcome, b: ArmedWaitOutcome)
    requires
        a.name() == b.name(),
    ensures
        a is Ready <==> b is Ready,
        a is CutoffReached <==> b is CutoffReached,
        a is PreflightFailed <==> b is PreflightFailed,
        a is DriftExceeded <==> b is DriftExceeded,
        a is Stopped <==> b is Stopped,
        a is Aborted <==> b is Aborted,
        a is AlreadyArmed <==> b is AlreadyArmed,
{
    reveal_strlit("ready");
    reveal_strlit("cutoff_reached");
    reveal_strlit("preflight_failed");
    reveal_strlit("drift_exceeded");
    reveal_strlit("stopped");
    reveal_strlit("aborted");
    reveal_strlit("already_armed");
    assert("ready"@.len() == 5 && "preflight_failed"@.len() == 16 && "already_armed"@.len() == 13);
    assert("cutoff_reached"@.len() == 14 && "drift_exceeded"@.len() == 14);
    assert("stopped"@.len() == 7 && "aborted"@.len() == 7);
    assert("cutoff_reached"@[0] != "drift_exceeded"@[0]);
    assert("stopped"@[0] != "aborted"@[0]);
}

/// Takes up the watch for a signal, unless the same signal is being watched already.
pub fn claim_watch(current: &mut Option<String>, signal_id: &str) -> (claimed: bool)
    ensures
        claimed == !(*old(current) is Some && old(current)->0@ == signal_id@),
        *final(current) is Some,
        final(current)->0@ == signal_id@,
{
    let same: bool = match &*current {
        Some(id) => same_text(id.as_str(), signal_id),
        None => false,
    };
    if !same {
        *current = Some(signal_id.to_owned());
    }
    !same
}

/// Gives up the watch when it ended.  A watch that was never taken up leaves the other one alone.
pub fn release_watch(current: &mut Option<String>, outcome: &ArmedWaitOutcome)
    ensures
        *final(current) == (if *outcome is AlreadyArmed {
            *old(current)
        } else {
            None
        }),
{
    if !matches!(outcome, ArmedWaitOutcome::AlreadyArmed) {
        *current = None;
    }
}

/// What is looked at next.
#[derive(Debug, Clone, Copy, PartialEq, Eq, Structural)]
pub enum WatchStage {
    /// Flags and clock.
    Flags,
    /// The gates.
    Gates,
    /// The distance of the price.
    Drift,
    /// Whether the budget is used up.
    Budget,
    /// Sleep for so many milliseconds, or until something happens.
    Sleep(u64),
    /// The watch ended.
    Over,
}

/// A reply to what was looked at.
#[derive(Debug, Clone, Copy, PartialEq, Eq, Structural)]
pub enum WatchReply {
    Flags { stopped: bool, manual: bool, degraded: bool, elapsed_ms: u64, now: TimeOfDay },
    Gates(GateBits),
    /// Whether the price ran away; `None` where it could not be read.
    Drift(Option<bool>),
    Budget { elapsed_ms: u64 },
    /// Whether the sleep ended because the runner was stopped.
    Woken { stopped: bool },
}

/// The watch of one signal.
#[derive(Debug, Clone, Copy, PartialEq, Eq, Structural)]
pub struct ArmedWatch {
    pub budget_ms: u64,
    pub submit_timeout_ms: u64,
    pub tick_ms: u64,
    pub cutoff: TimeOfDay,
    /// The distance of the price is watched.
    pub drift_guard: bool,
    pub stage: WatchStage,
}

/// A value kept within bounds.
pub open spec fn within(x: u64, low: u64, high: u64) -> u64 {
    if x < low {
        low
    } else if x > high {
        high
    } else {
        x
    }
}

/// The smallest of three waits.
pub open spec fn shortest(a: u64, b: u64, c: u64) -> u64 {
    if a <= b && a <= c {
        a
    } else if b <= c {
        b
    } else {
        c
    }
}

/// What is left of a span.
pub open spec fn left_of(span: u64, elapsed: u64) -> u64 {
    if elapsed >= span {
        0
    } else {
        (span - elapsed) as u64
    }
}

/// The first closed gate, as a watch names it.
pub open spec fn gate_detail(gates: GateBits) -> Seq<char> {
    if !gates.subscription_health_ok {
        "armed_preflight_subscription_stale"@
    } else if !gates.spread_ok {
        "armed_preflight_spread_exceeded"@
    } else if !gates.nav_gate_ok {
        "armed_preflight_nav_failed"@
    } else if !gates.regime_confirmed {
        "armed_preflight_regime_unconfirmed"@
    } else {
        "armed_preflight_gate"@
    }
}

/// An outcome, its detail given as a text.
pub enum WatchVerdict {
    GoOn,
    Ready,
    CutoffReached,
    PreflightFailed(Seq<char>),
    DriftExceeded,
    Stopped,
    Aborted(Seq<char>),
}

/// What an outcome amounts to.
pub open spec fn verdict_of(outcome: Option<ArmedWaitOutcome>) -> WatchVerdict {
    match outcome {
        None => WatchVerdict::GoOn,
        Some(ArmedWaitOutcome::Ready) => WatchVerdict::Ready,
        Some(ArmedWaitOutcome::CutoffReached) => WatchVerdict::CutoffReached,
        Some(ArmedWaitOutcome::PreflightFailed(why)) => WatchVerdict::PreflightFailed(why@),
        Some(ArmedWaitOutcome::DriftExceeded) => WatchVerdict::DriftExceeded,
        Some(ArmedWaitOutcome::Stopped) => WatchVerdict::Stopped,
        Some(ArmedWaitOutcome::Aborted(why)) => WatchVerdict::Aborted(why@),
        Some(ArmedWaitOutcome::AlreadyArmed) => WatchVerdict::GoOn,
    }
}

impl ArmedWatch {
    /// The start: the budget and the tick are kept within sensible bounds.
    pub open spec fn begun(
        budget_ms: u64,
        submit_timeout_ms: u64,
        tick_ms: u64,
        cutoff: TimeOfDay,
        drift_guard: bool,
    ) -> ArmedWatch {
        ArmedWatch {
            budget_ms: within(budget_ms, 50, 5_000),
            submit_timeout_ms,
            tick_ms: within(tick_ms, 50, 1_000),
            cutoff,
            drift_guard,
            stage: WatchStage::Flags,
        }
    }

    /// `reply` answers what is looked at.
    pub open spec fn awaits(self, reply: WatchReply) -> bool {
        match self.stage {
            WatchStage::Flags => reply is Flags,
            WatchStage::Gates => reply is Gates,
            WatchStage::Drift => reply is Drift,
            WatchStage::Budget => reply is Budget,
            WatchStage::Sleep(_) => reply is Woken,
            WatchStage::Over => false,
        }
    }

    /// What a reply means for the watch.  The first thing that is wrong counts.
    pub open spec fn verdict(self, reply: WatchReply) -> WatchVerdict {
        match (self.stage, reply) {
            (
                WatchStage::Flags,
                WatchReply::Flags { stopped, manual, degraded, elapsed_ms, now },
            ) => if stopped {
                WatchVerdict::Stopped
            } else if manual {
                WatchVerdict::Aborted("armed_manual_intervention"@)
            } else if degraded {
                WatchVerdict::Aborted("armed_degraded"@)
            } else if elapsed_ms >= self.submit_timeout_ms {
                WatchVerdict::Aborted("armed_entry_submit_timeout"@)
            } else if !now.earlier(self.cutoff) {
                WatchVerdict::CutoffReached
            } else {
                WatchVerdict::GoOn
            },
            (WatchStage::Gates, WatchReply::Gates(gates)) => if gates.open() {
                WatchVerdict::GoOn
            } else {
                WatchVerdict::PreflightFailed(gate_detail(gates))
            },
            (WatchStage::Drift, WatchReply::Drift(ran_away)) => if ran_away == Some(true) {
                WatchVerdict::DriftExceeded
            } else {
                WatchVerdict::GoOn
            },
            (WatchStage::Budget, WatchReply::Budget { elapsed_ms }) => if elapsed_ms
                >= self.budget_ms {
                WatchVerdict::Ready
            } else {
                WatchVerdict::GoOn
            },
            (WatchStage::Sleep(_), WatchReply::Woken { stopped }) => if stopped {
                WatchVerdict::Stopped
            } else {
                WatchVerdict::GoOn
            },
            _ => WatchVerdict::GoOn,
        }
    }

    /// What is looked at after a reply that did not end the watch.
    pub open spec fn following(self, reply: WatchReply) -> WatchStage {
        match (self.stage, reply) {
            (WatchStage::Flags, WatchReply::Flags { .. }) => WatchStage::Gates,
            (WatchStage::Gates, WatchReply::Gates(_)) => if self.drift_guard {
                WatchStage::Drift
            } else {
                WatchStage::Budget
            },
            (WatchStage::Drift, WatchReply::Drift(_)) => WatchStage::Budget,
            (WatchStage::Budget, WatchReply::Budget { elapsed_ms }) => WatchStage::Sleep(
                shortest(
                    self.tick_ms,
                    left_of(self.budget_ms, elapsed_ms),
                    left_of(self.submit_timeout_ms, elapsed_ms),
                ),
            ),
            (WatchStage::Sleep(_), WatchReply::Woken { .. }) => WatchStage::Flags,
            _ => self.stage,
        }
    }

    /// The watch after a reply.
    pub open spec fn next(self, reply: WatchReply) -> ArmedWatch {
        ArmedWatch {
            stage: if self.verdict(reply) is GoOn {
                self.following(reply)
            } else {
                WatchStage::Over
            },
            ..self
        }
    }

    /// Starts the watch of a signal.  Without a budget there is no watch: the signal is entered at
    /// once.
    pub fn begin(
        budget_ms: u64,
        submit_timeout_ms: u64,
        tick_ms: u64,
        cutoff: TimeOfDay,
        drift_guard: bool,
    ) -> (r: Option<Self>)
        ensures
            r == (if budget_ms == 0 {
                None
            } else {
                Some(Self::begun(budget_ms, submit_timeout_ms, tick_ms, cutoff, drift_guard))
            }),
    {
        if budget_ms == 0 {
            return None;
        }
        let budget: u64 = if budget_ms < 50 {
            50
        } else if budget_ms > 5_000 {
            5_000
        } else {
            budget_ms
        };
        let tick: u64 = if tick_ms < 50 {
            50
        } else if tick_ms > 1_000 {
            1_000
        } else {
            tick_ms
        };
        Some(
            ArmedWatch {
                budget_ms: budget,
                submit_timeout_ms,
                tick_ms: tick,
                cutoff,
                drift_guard,
                stage: WatchStage::Flags,
            },
        )
    }

    fn judge(&self, reply: WatchReply) -> (r: Option<ArmedWaitOutcome>)
        ensures
            verdict_of(r) == self.verdict(reply),
            r != Some(ArmedWaitOutcome::AlreadyArmed),
    {
        match (self.stage, reply) {
            (
                WatchStage::Flags,
                WatchReply::Flags { stopped, manual, degraded, elapsed_ms, now },
            ) => {
                if stopped {
                    Some(ArmedWaitOutcome::Stopped)
                } else if manual {
                    Some(ArmedWaitOutcome::Aborted("armed_manual_intervention"))
                } else if degraded {
                    Some(ArmedWaitOutcome::Aborted("armed_degraded"))
                } else if elapsed_ms >= self.submit_timeout_ms {
                    Some(ArmedWaitOutcome::Aborted("armed_entry_submit_timeout"))
                } else if !now.is_before(self.cutoff) {
                    Some(ArmedWaitOutcome::CutoffReached)
                } else {
                    None
                }
            },
            (WatchStage::Gates, WatchReply::Gates(gates)) => {
                if gates.is_open() {
                    None
                } else if !gates.subscription_health_ok {
                    Some(ArmedWaitOutcome::PreflightFailed("armed_preflight_subscription_stale"))
                } else if !gates.spread_ok {
                    Some(ArmedWaitOutcome::PreflightFailed("armed_preflight_spread_exceeded"))
                } else if !gates.nav_gate_ok {
                    Some(ArmedWaitOutcome::PreflightFailed("armed_preflight_nav_failed"))
                } else if !gates.regime_confirmed {
                    Some(ArmedWaitOutcome::PreflightFailed("armed_preflight_regime_unconfirmed"))
                } else {
                    Some(ArmedWaitOutcome::PreflightFailed("armed_preflight_gate"))
                }
            },
            (WatchStage::Drift, WatchReply::Drift(ran_away)) => {
                if matches!(ran_away, Some(true)) {
                    Some(ArmedWaitOutcome::DriftExceeded)
                } else {
                    None
                }
            },
            (WatchStage::Budget, WatchReply::Budget { elapsed_ms }) => {
                if elapsed_ms >= self.budget_ms {
                    Some(ArmedWaitOutcome::Ready)
                } else {
                    None
                }
            },
            (WatchStage::Sleep(_), WatchReply::Woken { stopped }) => {
                if stopped {
                    Some(ArmedWaitOutcome::Stopped)
                } else {
                    None
                }
            },
            _ => None,
        }
    }

    fn follow(&self, reply: WatchReply) -> (r: WatchStage)
        ensures
            r == self.following(reply),
    {
        match (self.stage, reply) {
            (WatchStage::Flags, WatchReply::Flags { .. }) => WatchStage::Gates,
            (WatchStage::Gates, WatchReply::Gates(_)) => if self.drift_guard {
                WatchStage::Drift
            } else {
                WatchStage::Budget
            },
            (WatchStage::Drift, WatchReply::Drift(_)) => WatchStage::Budget,
            (WatchStage::Budget, WatchReply::Budget { elapsed_ms }) => {
                let budget_left: u64 = self.budget_ms.saturating_sub(elapsed_ms);
                let submit_left: u64 = self.submit_timeout_ms.saturating_sub(elapsed_ms);
                let mut wait: u64 = self.tick_ms;
                if budget_left < wait {
                    wait = budget_left;
                }
                if submit_left < wait {
                    wait = submit_left;
                }
                WatchStage::Sleep(wait)
            },
            (WatchStage::Sleep(_), WatchReply::Woken { .. }) => WatchStage::Flags,
            _ => self.stage,
        }
    }

    /// Takes in a reply.  An outcome ends the watch.
    pub fn step(&mut self, reply: WatchReply) -> (outcome: Option<ArmedWaitOutcome>)
        requires
            old(self).awaits(reply),
        ensures
            verdict_of(outcome) == old(self).verdict(reply),
            outcome is None <==> old(self).verdict(reply) is GoOn,
            *final(self) == old(self).next(reply),
    {
        let outcome = self.judge(reply);
        if outcome.is_none() {
            self.stage = self.follow(reply);
        } else {
            self.stage = WatchStage::Over;
        }
        outcome
    }
}

/// A watch after several replies, in their order.
pub open spec fn watch_run(watch: ArmedWatch, replies: Seq<WatchReply>) -> ArmedWatch
    decreases replies.len(),
{
    if replies.len() == 0 {
        watch
    } else {
        watch_run(watch, replies.drop_last()).next(replies.last())
    }
}

impl WatchReply {
    /// Nothing speaks against entering.
    pub open spec fn clean(self, watch: ArmedWatch) -> bool {
        match self {
            WatchReply::Flags { stopped, manual, degraded, elapsed_ms, now } => !stopped && !manual
                && !degraded && elapsed_ms < watch.submit_timeout_ms && now.earlier(watch.cutoff),
            WatchReply::Gates(gates) => gates.open(),
            WatchReply::Drift(ran_away) => ran_away != Some(true),
            WatchReply::Budget { .. } => true,
            WatchReply::Woken { stopped } => !stopped,
        }
    }
}

/// As long as a watch goes on, every reply so far spoke for entering.
pub proof fn watch_goes_on_only_while_clean(
    budget_ms: u64,
    submit_timeout_ms: u64,
    tick_ms: u64,
    cutoff: TimeOfDay,
    drift_guard: bool,
    replies: Seq<WatchReply>,
    i: int,
)
    requires
        ({
            let start = ArmedWatch::begun(budget_ms, submit_timeout_ms, tick_ms, cutoff, drift_guard);
            &&& !(watch_run(start, replies).stage is Over)
            &&& 0 <= i < replies.len()
            &&& forall|k: int|
                0 <= k < replies.len() ==> (#[trigger] watch_run(start, replies.take(k))).awaits(
                    replies[k],
                )
        }),
    ensures
        replies[i].clean(
            ArmedWatch::begun(budget_ms, submit_timeout_ms, tick_ms, cutoff, drift_guard),
        ),
    decreases replies.len(),
{
    let start = ArmedWatch::begun(budget_ms, submit_timeout_ms, tick_ms, cutoff, drift_guard);
    let n = replies.len() - 1;
    assert(replies.take(n) =~= replies.drop_last());
    let before = watch_run(start, replies.drop_last());
    assert(before.awaits(replies[n]));
    watch_keeps_its_terms(start, replies.drop_last());
    if i < n {
        assert forall|k: int| 0 <= k < replies.drop_last().len() implies (
        #[trigger] watch_run(start, replies.drop_last().take(k))).awaits(replies.drop_last()[k]) by {
            assert(replies.drop_last().take(k) =~= replies.take(k));
            assert(watch_run(start, replies.take(k)).awaits(replies[k]));
        }
        watch_goes_on_only_while_clean(
            budget_ms,
            submit_timeout_ms,
            tick_ms,
            cutoff,
            drift_guard,
            replies.drop_last(),
            i,
        );
    }
}

proof fn watch_keeps_its_terms(start: ArmedWatch, replies: Seq<WatchReply>)
    ensures
        watch_run(start, replies) == (ArmedWatch {
            stage: watch_run(start, replies).stage,
            ..start
        }),
    decreases replies.len(),
{
    if replies.len() > 0 {
        watch_keeps_its_terms(start, replies.drop_last());
    }
}

/// A signal is entered only once the budget is used up.
pub proof fn ready_only_after_budget(watch: ArmedWatch, reply: WatchReply)
    requires
        watch.awaits(reply),
        watch.verdict(reply) is Ready,
    ensures
        reply matches WatchReply::Budget { elapsed_ms } && elapsed_ms >= watch.budget_ms,
{
}

/// A time is up to another one.
pub open spec fn reached(now: TimeOfDay, at: TimeOfDay) -> bool {
    now.secs > at.secs || (now.secs == at.secs && now.nanos >= at.nanos)
}

/// What ends a watch, and as what: the first of these that holds.  A stop, a person, a degraded
/// system, a wait that is too long, the cutoff; a closed gate; a price that ran away; and at the
/// end of the budget, that nothing was in the way.
pub proof fn watches_end_for_a_cause(watch: ArmedWatch, reply: WatchReply)
    requires
        watch.awaits(reply),
    ensures
        match reply {
            WatchReply::Flags { stopped, manual, degraded, elapsed_ms, now } => {
                &&& watch.verdict(reply) is GoOn <==> !stopped && !manual && !degraded && elapsed_ms
                    < watch.submit_timeout_ms && !reached(now, watch.cutoff)
                &&& watch.verdict(reply) is Stopped <==> stopped
                &&& watch.verdict(reply) is CutoffReached <==> !stopped && !manual && !degraded
                    && elapsed_ms < watch.submit_timeout_ms && reached(now, watch.cutoff)
                &&& watch.verdict(reply) is Aborted <==> !stopped && (manual || degraded
                    || elapsed_ms >= watch.submit_timeout_ms)
            },
            WatchReply::Gates(g) => if g.subscription_health_ok && !g.quote_fault && g.spread_ok
                && g.nav_gate_ok && g.regime_confirmed {
                watch.verdict(reply) is GoOn
            } else {
                watch.verdict(reply) is PreflightFailed
            },
            WatchReply::Drift(ran_away) => if ran_away == Some(true) {
                watch.verdict(reply) is DriftExceeded
            } else {
                watch.verdict(reply) is GoOn
            },
            WatchReply::Budget { elapsed_ms } => if elapsed_ms >= watch.budget_ms {
                watch.verdict(reply) is Ready
            } else {
                watch.verdict(reply) is GoOn
            },
            WatchReply::Woken { stopped } => if stopped {
                watch.verdict(reply) is Stopped
            } else {
                watch.verdict(reply) is GoOn
            },
        },
        watch.next(reply).stage is Over <==> !(watch.verdict(reply) is GoOn),
{
}

/// A watch that goes on looks at the flags, the gates, the price where it is guarded, and the
/// budget, in turn; then it sleeps for a tick, but neither beyond its budget nor beyond the time
/// to send an order.
pub proof fn watches_look_in_turn(watch: ArmedWatch, reply: WatchReply)
    requires
        watch.awaits(reply),
        watch.verdict(reply) is GoOn,
    ensures
        match (reply, watch.next(reply).stage) {
            (WatchReply::Flags { .. }, WatchStage::Gates) => true,
            (WatchReply::Gates(_), WatchStage::Drift) => watch.drift_guard,
            (WatchReply::Gates(_), WatchStage::Budget) => !watch.drift_guard,
            (WatchReply::Drift(_), WatchStage::Budget) => true,
            (WatchReply::Budget { elapsed_ms }, WatchStage::Sleep(ms)) => {
                &&& ms <= watch.tick_ms
                &&& elapsed_ms + ms <= watch.budget_ms
                &&& ms == 0 || elapsed_ms + ms <= watch.submit_timeout_ms
                &&& ms == watch.tick_ms || elapsed_ms + ms == watch.budget_ms || elapsed_ms + ms
                    >= watch.submit_timeout_ms
            },
            (WatchReply::Woken { .. }, WatchStage::Flags) => true,
            _ => false,
        },
        watch.next(reply) == (ArmedWatch { stage: watch.next(reply).stage, ..watch }),
{
}

/// A watch has a budget between 50 milliseconds and five seconds, and a tick between 50
/// milliseconds and one second, as near to what was asked for as that allows.
pub proof fn watches_have_sensible_terms(
    budget_ms: u64,
    submit_timeout_ms: u64,
    tick_ms: u64,
    cutoff: TimeOfDay,
    drift_guard: bool,
)
    ensures
        ({
            let w = ArmedWatch::begun(budget_ms, submit_timeout_ms, tick_ms, cutoff, drift_guard);
            &&& 50 <= w.budget_ms <= 5_000
            &&& w.budget_ms == budget_ms || (budget_ms < 50 && w.budget_ms == 50) || (budget_ms
                > 5_000 && w.budget_ms == 5_000)
            &&& 50 <= w.tick_ms <= 1_000
            &&& w.tick_ms == tick_ms || (tick_ms < 50 && w.tick_ms == 50) || (tick_ms > 1_000
                && w.tick_ms == 1_000)
            &&& w.submit_timeout_ms == submit_timeout_ms
            &&& w.cutoff == cutoff
            &&& w.drift_guard == drift_guard
            &&& w.stage is Flags
        }),
{
}

/// Durations add up until they are capped, and the longest is kept: of all watches, and of those
/// that ended ready or were called off, of those alone.
pub proof fn durations_add_up(stats: ArmedWatchStats, outcome: ArmedWaitOutcome, ms: u64)
    ensures
        ({
            let after = stats.with(outcome, ms);
            &&& after.total_duration_ms == (if stats.total_duration_ms + ms > u64::MAX {
                u64::MAX as int
            } else {
                stats.total_duration_ms + ms
            })
            &&& after.max_duration_ms >= ms && after.max_duration_ms >= stats.max_duration_ms && (
            after.max_duration_ms == ms || after.max_duration_ms == stats.max_duration_ms)
            &&& !(outcome is Ready) ==> after.ready_duration_ms_sum == stats.ready_duration_ms_sum
                && after.ready_duration_ms_max == stats.ready_duration_ms_max
            &&& outcome is Ready && stats.ready_duration_ms_sum + ms <= u64::MAX
                ==> after.ready_duration_ms_sum == stats.ready_duration_ms_sum + ms
            &&& outcome is Ready ==> after.ready_duration_ms_max >= ms && after.ready_duration_ms_max
                >= stats.ready_duration_ms_max && (after.ready_duration_ms_max == ms
                || after.ready_duration_ms_max == stats.ready_duration_ms_max)
            &&& !(outcome is Aborted) ==> after.aborted_duration_ms_sum
                == stats.aborted_duration_ms_sum && after.aborted_duration_ms_max
                == stats.aborted_duration_ms_max
            &&& outcome is Aborted && stats.aborted_duration_ms_sum + ms <= u64::MAX
                ==> after.aborted_duration_ms_sum == stats.aborted_duration_ms_sum + ms
            &&& outcome is Aborted ==> after.aborted_duration_ms_max >= ms
                && after.aborted_duration_ms_max >= stats.aborted_duration_ms_max && (
            after.aborted_duration_ms_max == ms || after.aborted_duration_ms_max
                == stats.aborted_duration_ms_max)
        }),
{
}

/// Before the first watch nothing is counted and no time is added up.
pub proof fn counting_starts_at_nothing()
    ensures
        ({
            let s = ArmedWatchStats::nothing();
            &&& s.ready_count == 0 && s.cutoff_count == 0 && s.preflight_failed_count == 0
            &&& s.drift_exceeded_count == 0 && s.stopped_count == 0 && s.aborted_count == 0
            &&& s.already_armed_count == 0
            &&& s.total_duration_ms == 0 && s.max_duration_ms == 0
            &&& s.ready_duration_ms_sum == 0 && s.ready_duration_ms_max == 0
            &&& s.aborted_duration_ms_sum == 0 && s.aborted_duration_ms_max == 0
        }),
{
}

/// A closed gate, a price that ran away and a watch that was called off are warned of; no other end
/// is.
pub proof fn bad_ends_of_a_watch_are_warned_of(outcome: ArmedWaitOutcome)
    ensures
        outcome is PreflightFailed ==> !outcome.harmless(),
        outcome is DriftExceeded ==> !outcome.harmless(),
        outcome is Aborted ==> !outcome.harmless(),
        outcome is Ready || outcome is CutoffReached || outcome is Stopped || outcome is AlreadyArmed
            ==> outcome.harmless(),
{
}

/// The first closed gate is the one that is named.
pub proof fn first_closed_gate_is_named(gates: GateBits)
    ensures
        ({
            let said = gate_detail(gates);
            let feeds = gates.subscription_health_ok;
            let narrow = gates.spread_ok;
            &&& !feeds ==> said == "armed_preflight_subscription_stale"@
            &&& feeds && !narrow ==> said == "armed_preflight_spread_exceeded"@
            &&& feeds && narrow && !gates.nav_gate_ok ==> said == "armed_preflight_nav_failed"@
            &&& feeds && narrow && gates.nav_gate_ok && !gates.regime_confirmed ==> said
                == "armed_preflight_regime_unconfirmed"@
            &&& feeds && narrow && gates.nav_gate_ok && gates.regime_confirmed ==> said
                == "armed_preflight_gate"@
        }),
{
}

} // verus!
