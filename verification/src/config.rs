//! Settings of a live runner.

use crate::clock::TimeOfDay;
use crate::double::DoubleBits;
use crate::text::same_text;
use vstd::prelude::*;

verus! {

/// How an entry order is priced.
#[derive(Debug, Clone, Copy, PartialEq, Eq, Structural)]
pub enum ExecutionPolicyKind {
    /// At the edge of the signal's zone, waiting for the market to come.
    PassiveZoneEdge,
    /// Beyond the best quote, so that it meets the market.
    MarketableLimit {
        /// So many ticks beyond the quote.
        tick_offset: u32,
        /// The largest distance from the intended price, as a part of it.
        slippage_budget_pct: DoubleBits,
    },
}

impl Default for ExecutionPolicyKind {
    fn default() -> (r: Self)
        ensures
            r == ExecutionPolicyKind::PassiveZoneEdge,
    {
        ExecutionPolicyKind::PassiveZoneEdge
    }
}

impl ExecutionPolicyKind {
    /// The name under which a policy is stored.
    pub open spec fn name(self) -> Seq<char> {
        match self {
            ExecutionPolicyKind::PassiveZoneEdge => "limit_passive"@,
            ExecutionPolicyKind::MarketableLimit { .. } => "marketable_limit"@,
        }
    }

    /// The name under which a policy is stored.
    pub fn entry_mode_label(self) -> (r: &'static str)
        ensures
            r@ == self.name(),
    {
        match self {
            ExecutionPolicyKind::PassiveZoneEdge => "limit_passive",
            ExecutionPolicyKind::MarketableLimit { .. } => "marketable_limit",
        }
    }
}

/// How long each part of an execution may take, in milliseconds.
#[derive(Debug, Clone, Copy, PartialEq, Eq, Structural)]
pub struct TimeoutPolicy {
    pub entry_submit_ms: u64,
    pub entry_fill_ms: u64,
    pub exit_fill_ms: u64,
}

/// Settings of a live runner.
#[derive(Debug, Clone)]
pub struct LiveRunnerConfig {
    /// The largest distance of the price from the entry; `None` does not watch it.
    pub max_entry_drift_pct: Option<DoubleBits>,
    /// The opening-range stages that may be entered on; `None` allows all.
    pub allowed_stages: Option<Vec<String>>,
    /// The most trades a day, in place of the strategy's.
    pub max_daily_trades_override: Option<usize>,
    /// The cutoff for entries, in place of the strategy's.
    pub entry_cutoff_override: Option<TimeOfDay>,
    /// Orders may be sent.
    pub enable_real_orders: bool,
    /// Real money is at stake.
    pub real_mode: bool,
    pub entry_fill_timeout_ms: u64,
    pub exit_verification_budget_ms: u64,
    pub poll_interval_ms: u64,
    pub manage_poll_interval_ms: u64,
    pub execution_policy_kind: ExecutionPolicyKind,
    /// How long a signal is watched before it is entered; 0 enters at once.
    pub armed_watch_budget_ms: u64,
    pub armed_tick_check_interval_ms: u64,
    pub exit_ws_notice_timeout_ms: u64,
    pub exit_rest_retries: u32,
    pub exit_rest_retry_interval_ms: u64,
    pub exit_balance_retries: u32,
    pub exit_balance_retry_interval_ms: u64,
    /// How old gates that others set may be.
    pub external_gate_max_age_ms: u64,
}

/// 0.005: one half of one percent.
pub const REAL_DRIFT_BITS: u64 = 0x3f74_7ae1_47ae_147b;

/// 0.003: three tenths of one percent.
pub const REAL_SLIPPAGE_BITS: u64 = 0x3f68_9374_bc6a_7efa;

/// A number kept within bounds.
pub open spec fn bounded(x: int, low: int, high: int) -> int {
    if x < low {
        low
    } else if x > high {
        high
    } else {
        x
    }
}

fn clamp_u64(x: u64, low: u64, high: u64) -> (r: u64)
    requires
        low <= high,
    ensures
        r == bounded(x as int, low as int, high as int),
        low <= r <= high,
{
    if x < low {
        low
    } else if x > high {
        high
    } else {
        x
    }
}

fn clamp_u32(x: u32, low: u32, high: u32) -> (r: u32)
    requires
        low <= high,
    ensures
        r == bounded(x as int, low as int, high as int),
        low <= r <= high,
{
    if x < low {
        low
    } else if x > high {
        high
    } else {
        x
    }
}

impl Default for LiveRunnerConfig {
    fn default() -> (r: Self)
        ensures
            r.max_entry_drift_pct is None,
            r.allowed_stages is Some,
            r.allowed_stages->0@.len() == 1,
            r.allowed_stages->0@[0]@ == "15m"@,
            r.max_daily_trades_override is None,
            r.entry_cutoff_override is None,
            r.enable_real_orders,
            !r.real_mode,
            r.entry_fill_timeout_ms == 60_000,
            r.exit_verification_budget_ms == 15_000,
            r.poll_interval_ms == 5_000,
            r.manage_poll_interval_ms == 3_000,
            r.execution_policy_kind is PassiveZoneEdge,
            r.armed_watch_budget_ms == 0,
            r.armed_tick_check_interval_ms == 150,
            r.exit_ws_notice_timeout_ms == 3_000,
            r.exit_rest_retries == 3,
            r.exit_rest_retry_interval_ms == 1_000,
            r.exit_balance_retries == 3,
            r.exit_balance_retry_interval_ms == 1_000,
            r.external_gate_max_age_ms == 60_000,
    {
        let mut stages: Vec<String> = Vec::new();
        stages.push("15m".to_owned());
        LiveRunnerConfig {
            max_entry_drift_pct: None,
            allowed_stages: Some(stages),
            max_daily_trades_override: None,
            entry_cutoff_override: None,
            enable_real_orders: true,
            real_mode: false,
            entry_fill_timeout_ms: 60_000,
            exit_verification_budget_ms: 15_000,
            poll_interval_ms: 5_000,
            manage_poll_interval_ms: 3_000,
            execution_policy_kind: ExecutionPolicyKind::PassiveZoneEdge,
            armed_watch_budget_ms: 0,
            armed_tick_check_interval_ms: 150,
            exit_ws_notice_timeout_ms: 3_000,
            exit_rest_retries: 3,
            exit_rest_retry_interval_ms: 1_000,
            exit_balance_retries: 3,
            exit_balance_retry_interval_ms: 1_000,
            external_gate_max_age_ms: 60_000,
        }
    }
}

impl LiveRunnerConfig {
    /// The stage may be entered on.
    pub open spec fn allows(self, stage: Seq<char>) -> bool {
        match self.allowed_stages {
            None => true,
            Some(list) => exists|i: int| 0 <= i < list@.len() && (#[trigger] list@[i])@ == stage,
        }
    }

    /// How long each look at the broker takes when an exit is verified, all in all.
    pub open spec fn verify_span(self) -> int {
        bounded(self.exit_ws_notice_timeout_ms as int, 500, 30_000) + bounded(
            self.exit_rest_retries as int,
            1,
            10,
        ) * bounded(self.exit_rest_retry_interval_ms as int, 200, 5_000) + bounded(
            self.exit_balance_retries as int,
            1,
            10,
        ) * bounded(self.exit_balance_retry_interval_ms as int, 200, 5_000)
    }

    /// How long verifying an exit may take.
    pub open spec fn exit_span(self) -> int {
        let budget = bounded(self.exit_verification_budget_ms as int, 1_000, 60_000);
        if self.verify_span() > budget {
            self.verify_span()
        } else {
            budget
        }
    }

    /// Careful settings for real money.
    pub fn for_real_mode(
        allowed_stages: Vec<String>,
        entry_cutoff: TimeOfDay,
        enable_real_orders: bool,
    ) -> (r: Self)
        ensures
            r.max_entry_drift_pct == Some(DoubleBits { bits: REAL_DRIFT_BITS }),
            r.allowed_stages == Some(allowed_stages),
            r.max_daily_trades_override == Some(1usize),
            r.entry_cutoff_override == Some(entry_cutoff),
            r.enable_real_orders == enable_real_orders,
            r.real_mode,
            r.entry_fill_timeout_ms == 3_000,
            r.exit_verification_budget_ms == 15_000,
            r.poll_interval_ms == 1_000,
            r.manage_poll_interval_ms == 3_000,
            r.execution_policy_kind == (ExecutionPolicyKind::MarketableLimit {
                tick_offset: 1,
                slippage_budget_pct: DoubleBits { bits: REAL_SLIPPAGE_BITS },
            }),
            r.armed_watch_budget_ms == 200,
            r.armed_tick_check_interval_ms == 150,
            r.exit_ws_notice_timeout_ms == 3_000,
            r.exit_rest_retries == 3,
            r.exit_rest_retry_interval_ms == 1_000,
            r.exit_balance_retries == 3,
            r.exit_balance_retry_interval_ms == 1_000,
            r.external_gate_max_age_ms == 15_000,
    {
        LiveRunnerConfig {
            max_entry_drift_pct: Some(DoubleBits { bits: REAL_DRIFT_BITS }),
            allowed_stages: Some(allowed_stages),
            max_daily_trades_override: Some(1),
            entry_cutoff_override: Some(entry_cutoff),
            enable_real_orders,
            real_mode: true,
            entry_fill_timeout_ms: 3_000,
            exit_verification_budget_ms: 15_000,
            poll_interval_ms: 1_000,
            manage_poll_interval_ms: 3_000,
            execution_policy_kind: ExecutionPolicyKind::MarketableLimit {
                tick_offset: 1,
                slippage_budget_pct: DoubleBits { bits: REAL_SLIPPAGE_BITS },
            },
            armed_watch_budget_ms: 200,
            armed_tick_check_interval_ms: 150,
            exit_ws_notice_timeout_ms: 3_000,
            exit_rest_retries: 3,
            exit_rest_retry_interval_ms: 1_000,
            exit_balance_retries: 3,
            exit_balance_retry_interval_ms: 1_000,
            external_gate_max_age_ms: 15_000,
        }
    }

    /// How long a fill is waited for, in milliseconds: from half a second to a minute.
    pub fn entry_fill_timeout(&self) -> (r: u64)
        ensures
            r == bounded(self.entry_fill_timeout_ms as int, 500, 60_000),
    {
        clamp_u64(self.entry_fill_timeout_ms, 500, 60_000)
    }

    /// How long a fill notice is waited for when an exit is verified, in milliseconds.
    pub fn exit_notice_timeout(&self) -> (r: u64)
        ensures
            r == bounded(self.exit_ws_notice_timeout_ms as int, 500, 30_000),
    {
        clamp_u64(self.exit_ws_notice_timeout_ms, 500, 30_000)
    }

    /// How often the execution list is looked at when an exit is verified, and how many
    /// milliseconds apart.
    pub fn exit_rest_plan(&self) -> (r: (u32, u64))
        ensures
            r.0 == bounded(self.exit_rest_retries as int, 1, 10),
            r.1 == bounded(self.exit_rest_retry_interval_ms as int, 200, 5_000),
            1 <= r.0 <= 10,
            200 <= r.1 <= 5_000,
    {
        (
            clamp_u32(self.exit_rest_retries, 1, 10),
            clamp_u64(self.exit_rest_retry_interval_ms, 200, 5_000),
        )
    }

    /// How often the balance is read when an exit is verified, and how many milliseconds apart.
    pub fn exit_balance_plan(&self) -> (r: (u32, u64))
        ensures
            r.0 == bounded(self.exit_balance_retries as int, 1, 10),
            r.1 == bounded(self.exit_balance_retry_interval_ms as int, 200, 5_000),
            1 <= r.0 <= 10,
            200 <= r.1 <= 5_000,
    {
        (
            clamp_u32(self.exit_balance_retries, 1, 10),
            clamp_u64(self.exit_balance_retry_interval_ms, 200, 5_000),
        )
    }

    /// How long verifying an exit may take, in milliseconds: the budget, or what all its steps
    /// need where that is longer.
    pub fn exit_fill_timeout(&self) -> (r: u64)
        ensures
            r == self.exit_span(),
    {
        let budget: u64 = clamp_u64(self.exit_verification_budget_ms, 1_000, 60_000);
        let notice: u64 = self.exit_notice_timeout();
        let (rest_n, rest_ms): (u32, u64) = self.exit_rest_plan();
        let (balance_n, balance_ms): (u32, u64) = self.exit_balance_plan();
        proof {
            assert(rest_n * rest_ms <= 50_000) by (nonlinear_arith)
                requires
                    0 <= rest_n <= 10,
                    0 <= rest_ms <= 5_000,
            ;
            assert(balance_n * balance_ms <= 50_000) by (nonlinear_arith)
                requires
                    0 <= balance_n <= 10,
                    0 <= balance_ms <= 5_000,
            ;
            assert(rest_n * rest_ms >= 0 && balance_n * balance_ms >= 0) by (nonlinear_arith)
                requires
                    rest_n >= 0,
                    rest_ms >= 0,
                    balance_n >= 0,
                    balance_ms >= 0,
            ;
        }
        let steps: u64 = notice + rest_n as u64 * rest_ms + balance_n as u64 * balance_ms;
        if steps > budget {
            steps
        } else {
            budget
        }
    }

    /// How long each part of an execution may take: the defaults for the money at stake, with the
    /// fills as set here.
    pub fn execution_timeout_policy(
        &self,
        real_defaults: TimeoutPolicy,
        paper_defaults: TimeoutPolicy,
    ) -> (r: TimeoutPolicy)
        ensures
            r.entry_submit_ms == (if self.real_mode {
                real_defaults.entry_submit_ms
            } else {
                paper_defaults.entry_submit_ms
            }),
            r.entry_fill_ms == bounded(self.entry_fill_timeout_ms as int, 500, 60_000),
            r.exit_fill_ms == self.exit_span(),
    {
        let base = if self.real_mode {
            real_defaults
        } else {
            paper_defaults
        };
        TimeoutPolicy {
            entry_submit_ms: base.entry_submit_ms,
            entry_fill_ms: self.entry_fill_timeout(),
            exit_fill_ms: self.exit_fill_timeout(),
        }
    }

    /// How long to sleep between two looks for a signal, in milliseconds.
    pub fn poll_interval(&self) -> (r: u64)
        ensures
            r == bounded(self.poll_interval_ms as int, 200, 30_000),
    {
        clamp_u64(self.poll_interval_ms, 200, 30_000)
    }

    /// How long to sleep between two looks at a position, in milliseconds.
    pub fn manage_poll_interval(&self) -> (r: u64)
        ensures
            r == bounded(self.manage_poll_interval_ms as int, 200, 10_000),
    {
        clamp_u64(self.manage_poll_interval_ms, 200, 10_000)
    }

    /// Whether a stage may be entered on.
    pub fn is_stage_allowed(&self, stage_name: &str) -> (r: bool)
        ensures
            r == self.allows(stage_name@),
    {
        match &self.allowed_stages {
            None => true,
            Some(list) => {
                let mut i: usize = 0;
                while i < list.len()
                    invariant
                        self.allowed_stages == Some(*list),
                        i <= list.len(),
                        forall|k: int| 0 <= k < i ==> (#[trigger] list@[k])@ != stage_name@,
                    decreases list.len() - i,
                {
                    if same_text(list[i].as_str(), stage_name) {
                        assert(self.allowed_stages->0@[i as int]@ == stage_name@);
                        return true;
                    }
                    i = i + 1;
                }
                false
            },
        }
    }

    /// The first of several stages that may be entered on.
    pub fn first_allowed_stage_name<'a>(&self, available: &Vec<&'a str>) -> (r: Option<&'a str>)
        ensures
            match r {
                Some(name) => exists|i: int|
                    {
                        &&& 0 <= i < available@.len()
                        &&& name == #[trigger] available@[i]
                        &&& self.allows(name@)
                        &&& forall|j: int|
                            0 <= j < i ==> !self.allows((#[trigger] available@[j])@)
                    },
                None => forall|j: int|
                    0 <= j < available@.len() ==> !self.allows((#[trigger] available@[j])@),
            },
    {
        let mut i: usize = 0;
        while i < available.len()
            invariant
                i <= available.len(),
                forall|j: int| 0 <= j < i ==> !self.allows((#[trigger] available@[j])@),
            decreases available.len() - i,
        {
            if self.is_stage_allowed(available[i]) {
                return Some(available[i]);
            }
            i = i + 1;
        }
        None
    }

    /// The most trades a day.
    pub fn effective_max_daily_trades(&self, default_value: usize) -> (r: usize)
        ensures
            r == (match self.max_daily_trades_override {
                Some(n) => n,
                None => default_value,
            }),
    {
        match self.max_daily_trades_override {
            Some(n) => n,
            None => default_value,
        }
    }

    /// The cutoff for entries.
    pub fn effective_entry_cutoff(&self, default_value: TimeOfDay) -> (r: TimeOfDay)
        ensures
            r == (match self.entry_cutoff_override {
                Some(t) => t,
                None => default_value,
            }),
    {
        match self.entry_cutoff_override {
            Some(t) => t,
            None => default_value,
        }
    }
}

/// The time allowed for verifying an exit covers every step of the verification, and never cuts it
/// short.
pub proof fn verification_has_time(cfg: LiveRunnerConfig)
    ensures
        cfg.exit_span() >= cfg.verify_span(),
        cfg.exit_span() >= 1_000,
{
}

/// A number kept within bounds is the bound that it oversteps, and itself where it oversteps none.
pub proof fn bounds_hold(x: int, low: int, high: int)
    requires
        low <= high,
    ensures
        low <= bounded(x, low, high) <= high,
        low <= x <= high ==> bounded(x, low, high) == x,
        x <= low ==> bounded(x, low, high) == low,
        x >= high ==> bounded(x, low, high) == high,
{
}

/// With settings within their bounds, verifying an exit takes the wait for a notice and as many
/// pauses as there are looks at the execution list and at the balance; and it may take that long or
/// as long as its budget, whichever is longer.
pub proof fn verification_takes_its_steps(cfg: LiveRunnerConfig)
    requires
        500 <= cfg.exit_ws_notice_timeout_ms <= 30_000,
        1 <= cfg.exit_rest_retries <= 10,
        200 <= cfg.exit_rest_retry_interval_ms <= 5_000,
        1 <= cfg.exit_balance_retries <= 10,
        200 <= cfg.exit_balance_retry_interval_ms <= 5_000,
        1_000 <= cfg.exit_verification_budget_ms <= 60_000,
    ensures
        ({
            let steps = cfg.exit_ws_notice_timeout_ms + cfg.exit_rest_retries
                * cfg.exit_rest_retry_interval_ms + cfg.exit_balance_retries
                * cfg.exit_balance_retry_interval_ms;
            &&& cfg.verify_span() == steps
            &&& steps >= cfg.exit_verification_budget_ms ==> cfg.exit_span() == steps
            &&& steps <= cfg.exit_verification_budget_ms ==> cfg.exit_span()
                == cfg.exit_verification_budget_ms
        }),
{
}

/// However the settings are, verifying an exit may take at least as long as its budget within a
/// second and a minute, and never longer than the longest steps.
pub proof fn verification_ends_in_time(cfg: LiveRunnerConfig)
    ensures
        1_000 <= cfg.exit_span() <= 130_000,
        900 <= cfg.verify_span() <= 130_000,
        cfg.exit_verification_budget_ms >= 60_000 ==> cfg.exit_span() >= 60_000,
{
    let a = bounded(cfg.exit_rest_retries as int, 1, 10);
    let b = bounded(cfg.exit_rest_retry_interval_ms as int, 200, 5_000);
    let c = bounded(cfg.exit_balance_retries as int, 1, 10);
    let d = bounded(cfg.exit_balance_retry_interval_ms as int, 200, 5_000);
    assert(200 <= a * b <= 50_000) by (nonlinear_arith)
        requires
            1 <= a <= 10,
            200 <= b <= 5_000,
    ;
    assert(200 <= c * d <= 50_000) by (nonlinear_arith)
        requires
            1 <= c <= 10,
            200 <= d <= 5_000,
    ;
}

/// A stage may be entered on where the list names it, and where there is no list.
pub proof fn listed_stages_are_allowed(cfg: LiveRunnerConfig, stage: Seq<char>, i: int)
    ensures
        cfg.allowed_stages is None ==> cfg.allows(stage),
        cfg.allowed_stages is Some && cfg.allowed_stages->0@.len() == 0 ==> !cfg.allows(stage),
        cfg.allowed_stages is Some && 0 <= i < cfg.allowed_stages->0@.len()
            && cfg.allowed_stages->0@[i]@ == stage ==> cfg.allows(stage),
        cfg.allowed_stages is Some && cfg.allows(stage) ==> exists|k: int|
            0 <= k < cfg.allowed_stages->0@.len() && (#[trigger] cfg.allowed_stages->0@[k])@
                == stage,
{
}

} // verus!
