//! Whether a fund trades close to its net asset value.

use crate::clock::UtcTime;
use crate::double::DoubleBits;
use vstd::prelude::*;

verus! {

/// Limits of the asset-value gate.
#[derive(Debug, Clone, Copy, PartialEq, Eq, Structural)]
pub struct NavGateConfig {
    /// The largest distance from the net asset value, as a part of it.
    pub max_deviation_pct: DoubleBits,
    /// How old a net asset value may be.
    pub max_stale_ms: u64,
}

/// A price and a net asset value.
#[derive(Debug, Clone, Copy, PartialEq, Eq, Structural)]
pub struct NavSnapshot {
    pub price: i64,
    pub nav: DoubleBits,
    /// When the net asset value was last updated.
    pub nav_updated_at: UtcTime,
}

/// What the asset-value gate decides.
#[derive(Debug, Clone, Copy, PartialEq, Eq, Structural)]
pub enum NavDecision {
    Pass { deviation_pct: DoubleBits },
    FailDeviation { deviation_pct: DoubleBits },
    FailStale { age_ms: i64 },
    FailInvalidNav,
}

/// One half of one percent: 0.005.
pub const DEFAULT_MAX_DEVIATION_BITS: u64 = 0x3f74_7ae1_47ae_147b;

impl Default for NavGateConfig {
    fn default() -> (r: Self)
        ensures
            r.max_deviation_pct.bits == DEFAULT_MAX_DEVIATION_BITS,
            r.max_stale_ms == 5_000,
    {
        NavGateConfig {
            max_deviation_pct: DoubleBits { bits: DEFAULT_MAX_DEVIATION_BITS },
            max_stale_ms: 5_000,
        }
    }
}

impl NavDecision {
    /// The name under which a decision is logged.
    pub open spec fn name(self) -> Seq<char> {
        match self {
            NavDecision::Pass { .. } => "nav_pass"@,
            NavDecision::FailDeviation { .. } => "nav_fail_deviation"@,
            NavDecision::FailStale { .. } => "nav_fail_stale"@,
            NavDecision::FailInvalidNav => "nav_fail_invalid"@,
        }
    }

    /// Whether the price passes.
    pub fn is_pass(self) -> (r: bool)
        ensures
            r == (self is Pass),
    {
        matches!(self, NavDecision::Pass { .. })
    }

    /// The name under which a decision is logged.
    pub fn label(self) -> (r: &'static str)
        ensures
            r@ == self.name(),
    {
        match self {
            NavDecision::Pass { .. } => "nav_pass",
            NavDecision::FailDeviation { .. } => "nav_fail_deviation",
            NavDecision::FailStale { .. } => "nav_fail_stale",
            NavDecision::FailInvalidNav => "nav_fail_invalid",
        }
    }
}

/// What the asset-value gate decides: a net asset value that is no positive number fails first,
/// then one that is too old or from the future, then a price too far away.
///
/// `deviation_pct` is the distance of the price from the net asset value, as a part of it.
pub open spec fn nav_decision(
    snapshot: NavSnapshot,
    cfg: NavGateConfig,
    now: UtcTime,
    deviation_pct: DoubleBits,
) -> NavDecision {
    let age_ms = UtcTime::age(now, snapshot.nav_updated_at);
    if !snapshot.nav.proper() {
        NavDecision::FailInvalidNav
    } else if age_ms < 0 || age_ms > cfg.max_stale_ms {
        NavDecision::FailStale { age_ms: age_ms as i64 }
    } else if deviation_pct.greater(cfg.max_deviation_pct) {
        NavDecision::FailDeviation { deviation_pct }
    } else {
        NavDecision::Pass { deviation_pct }
    }
}

/// What the asset-value gate decides.
pub fn evaluate_nav_gate(
    snapshot: &NavSnapshot,
    cfg: &NavGateConfig,
    now: UtcTime,
    deviation_pct: DoubleBits,
) -> (r: NavDecision)
    requires
        snapshot.nav_updated_at.valid(),
        now.valid(),
    ensures
        r == nav_decision(*snapshot, *cfg, now, deviation_pct),
{
    if !snapshot.nav.is_proper() {
        return NavDecision::FailInvalidNav;
    }
    let age_ms: i64 = now.millis_since(snapshot.nav_updated_at);
    if age_ms < 0 || age_ms as u64 > cfg.max_stale_ms {
        return NavDecision::FailStale { age_ms };
    }
    if deviation_pct.exceeds(cfg.max_deviation_pct) {
        NavDecision::FailDeviation { deviation_pct }
    } else {
        NavDecision::Pass { deviation_pct }
    }
}

/// A price passes exactly where the value is a positive number, recent enough, and the price is
/// not too far from it.
pub proof fn nav_gate_passes_exactly(
    snapshot: NavSnapshot,
    cfg: NavGateConfig,
    now: UtcTime,
    deviation_pct: DoubleBits,
)
    ensures
        nav_decision(snapshot, cfg, now, deviation_pct) is Pass <==> {
            &&& snapshot.nav.proper()
            &&& 0 <= UtcTime::age(now, snapshot.nav_updated_at) <= cfg.max_stale_ms
            &&& !deviation_pct.greater(cfg.max_deviation_pct)
        },
{
}

/// How long a net asset value has been standing, in nanoseconds.
pub open spec fn standing(snapshot: NavSnapshot, now: UtcTime) -> int {
    (now.secs - snapshot.nav_updated_at.secs) * 1_000_000_000 + now.nanos
        - snapshot.nav_updated_at.nanos
}

/// The first thing that is wrong decides: a value that is no number above zero, then one that is a
/// millisecond or more ahead of now or older than allowed, then a price too far away.  What is told
/// is the age in whole milliseconds, or the distance.
pub proof fn first_fault_decides(
    snapshot: NavSnapshot,
    cfg: NavGateConfig,
    now: UtcTime,
    deviation_pct: DoubleBits,
)
    requires
        snapshot.nav_updated_at.valid(),
        now.valid(),
    ensures
        ({
            let sound = 0 < snapshot.nav.bits < 0x7ff0_0000_0000_0000;
            let ns = standing(snapshot, now);
            let early = ns <= -1_000_000;
            let late = ns >= (cfg.max_stale_ms + 1) * 1_000_000;
            let r = nav_decision(snapshot, cfg, now, deviation_pct);
            &&& !sound ==> r is FailInvalidNav
            &&& sound && (early || late) ==> r is FailStale
            &&& sound && late ==> r->age_ms * 1_000_000 <= ns < (r->age_ms + 1) * 1_000_000
            &&& sound && early ==> (r->age_ms - 1) * 1_000_000 < ns <= r->age_ms * 1_000_000
            &&& sound && !early && !late ==> r == (if deviation_pct.greater(cfg.max_deviation_pct) {
                NavDecision::FailDeviation { deviation_pct }
            } else {
                NavDecision::Pass { deviation_pct }
            })
        }),
{
    let ns = standing(snapshot, now);
    assert(ns == now.since_epoch() - snapshot.nav_updated_at.since_epoch());
    let age = UtcTime::age(now, snapshot.nav_updated_at);
    if ns >= 0 {
        assert(age == ns / 1_000_000);
    } else {
        assert(age == -((-ns) / 1_000_000));
    }
    assert(i64::MIN <= age <= i64::MAX);
}

} // verus!
