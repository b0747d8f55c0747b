//! Trading the first pullback towards the volume-weighted price.  The engine finds no signal yet:
//! a runner that uses it trades nothing.

use crate::clock::TimeOfDay;
use crate::double::DoubleBits;
use crate::orb_fvg::HALF_BITS;
use crate::signals::{DetectedSignal, SignalEngine, SignalEngineConfig};
use crate::types::MinuteCandle;
use vstd::prelude::*;

verus! {

/// What the strategy goes by.
#[derive(Debug, Clone, Copy, PartialEq, Eq, Structural)]
pub struct OrbVwapPullbackConfig {
    /// The opening range begins.
    pub or_start: TimeOfDay,
    /// The opening range is over.
    pub or_end: TimeOfDay,
    /// From this time on nothing is entered.
    pub entry_cutoff: TimeOfDay,
    /// At this time every position is closed.
    pub force_exit: TimeOfDay,
    /// How many candles have to close outside the opening range for its direction to count.
    pub direction_confirm_candles: usize,
    /// The part of a position that is closed first.
    pub partial_exit_ratio: DoubleBits,
    pub max_daily_trades: usize,
}

impl OrbVwapPullbackConfig {
    /// The usual settings.
    pub open spec fn usual() -> OrbVwapPullbackConfig {
        OrbVwapPullbackConfig {
            or_start: TimeOfDay { secs: 32_400, nanos: 0 },
            or_end: TimeOfDay { secs: 33_300, nanos: 0 },
            entry_cutoff: TimeOfDay { secs: 37_800, nanos: 0 },
            force_exit: TimeOfDay { secs: 54_900, nanos: 0 },
            direction_confirm_candles: 2,
            partial_exit_ratio: DoubleBits { bits: HALF_BITS },
            max_daily_trades: 1,
        }
    }
}

impl Default for OrbVwapPullbackConfig {
    fn default() -> (r: Self)
        ensures
            r == OrbVwapPullbackConfig::usual(),
    {
        OrbVwapPullbackConfig {
            or_start: TimeOfDay::from_hms_opt(9, 0, 0).unwrap(),
            or_end: TimeOfDay::from_hms_opt(9, 15, 0).unwrap(),
            entry_cutoff: TimeOfDay::from_hms_opt(10, 30, 0).unwrap(),
            force_exit: TimeOfDay::from_hms_opt(15, 15, 0).unwrap(),
            direction_confirm_candles: 2,
            partial_exit_ratio: DoubleBits { bits: HALF_BITS },
            max_daily_trades: 1,
        }
    }
}

/// The engine of the strategy.
#[derive(Debug, Clone, Copy, PartialEq, Eq, Structural)]
pub struct OrbVwapPullbackEngine {
    pub config: OrbVwapPullbackConfig,
}

impl Default for OrbVwapPullbackEngine {
    fn default() -> (r: Self)
        ensures
            r.config == OrbVwapPullbackConfig::usual(),
    {
        OrbVwapPullbackEngine { config: OrbVwapPullbackConfig::default() }
    }
}

impl SignalEngine for OrbVwapPullbackEngine {
    /// Finds nothing, whatever it is given.
    fn detect_next(&self, candles_5m: &Vec<MinuteCandle>, config: &SignalEngineConfig) -> (r:
        Option<DetectedSignal>)
        ensures
            r is None,
    {
        None
    }
}

/// The usual settings: the opening range lasts from nine o'clock to a quarter past, entries are
/// made until half past ten, and at a quarter past three all is closed.  Two candles confirm the
/// direction, half a position is closed first, and one trade a day is made.
pub proof fn usual_pullback_settings_are_these()
    ensures
        ({
            let c = OrbVwapPullbackConfig::usual();
            &&& c.or_start.secs == 9 * 3600 && c.or_start.nanos == 0
            &&& c.or_end.secs == 9 * 3600 + 15 * 60 && c.or_end.nanos == 0
            &&& c.entry_cutoff.secs == 10 * 3600 + 30 * 60 && c.entry_cutoff.nanos == 0
            &&& c.force_exit.secs == 15 * 3600 + 15 * 60 && c.force_exit.nanos == 0
            &&& c.direction_confirm_candles == 2
            &&& c.partial_exit_ratio.bits == 0x3fe0_0000_0000_0000
            &&& c.max_daily_trades == 1
        }),
{
}

} // verus!
