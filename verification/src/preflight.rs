//! Gates that every new entry has to pass.

use crate::clock::{TimeOfDay, UtcTime};
use crate::quotes::{SpreadGateEvaluation, DEFAULT_SPREAD_THRESHOLD_TICKS};
use crate::text::same_text;
use vstd::prelude::*;

verus! {

/// Where the index is heading.
#[derive(Debug, Clone, Copy, PartialEq, Eq, Structural)]
pub enum IndexRegime {
    /// Up, for certain.
    Bullish,
    /// Down, for certain.
    Bearish,
    /// Sideways.
    Neutral,
    /// Not known.
    Unknown,
}

impl IndexRegime {
    /// The name under which a regime is stored.
    pub open spec fn name(self) -> Seq<char> {
        match self {
            IndexRegime::Bullish => "bullish"@,
            IndexRegime::Bearish => "bearish"@,
            IndexRegime::Neutral => "neutral"@,
            IndexRegime::Unknown => "unknown"@,
        }
    }

    /// The index has a direction.
    pub open spec fn directional(self) -> bool {
        self is Bullish || self is Bearish
    }

    /// Whether the index has a direction.
    pub fn is_confirmed_directional(self) -> (r: bool)
        ensures
            r == self.directional(),
    {
        matches!(self, IndexRegime::Bullish | IndexRegime::Bearish)
    }

    /// The name under which a regime is stored.
    pub fn label(self) -> (r: &'static str)
        ensures
            r@ == self.name(),
    {
        match self {
            IndexRegime::Bullish => "bullish",
            IndexRegime::Bearish => "bearish",
            IndexRegime::Neutral => "neutral",
            IndexRegime::Unknown => "unknown",
        }
    }
}

/// Gates that others set.
#[derive(Debug, Clone)]
pub struct ExternalGates {
    /// The fund trades close to its net asset value.
    pub nav_gate_ok: bool,
    pub index_regime: IndexRegime,
    /// The stock that is to be traded; `None` allows every stock.
    pub active_instrument: Option<String>,
    /// A verdict on the data feeds, on top of the runner's own.
    pub subscription_health_ok: Option<bool>,
    /// A verdict on the spread, in place of the runner's own.
    pub spread_ok_override: Option<bool>,
    /// When the gates were last set; `None` where nobody sets them.
    pub updated_at: Option<UtcTime>,
}

impl Default for ExternalGates {
    fn default() -> (r: Self)
        ensures
            r == (ExternalGates {
                nav_gate_ok: true,
                index_regime: IndexRegime::Bullish,
                active_instrument: None,
                subscription_health_ok: None,
                spread_ok_override: None,
                updated_at: None,
            }),
    {
        ExternalGates {
            nav_gate_ok: true,
            index_regime: IndexRegime::Bullish,
            active_instrument: None,
            subscription_health_ok: None,
            spread_ok_override: None,
            updated_at: None,
        }
    }
}

/// What the gates amount to, together with the runner's own checks.
#[derive(Debug, Clone)]
pub struct ExternalGateApplication {
    pub nav_gate_ok: bool,
    pub regime_confirmed: bool,
    pub active_instrument: Option<String>,
    pub subscription_health_ok: bool,
    pub spread_ok: bool,
    /// The gates are out of date.
    pub stale_detected: bool,
}

impl ExternalGates {
    /// Its time of setting is a real one.
    pub open spec fn valid(self) -> bool {
        self.updated_at matches Some(t) ==> t.valid()
    }

    /// The gates were set longer ago than allowed, or in the future.  Gates that nobody sets are
    /// never out of date.
    pub open spec fn stale(self, now: UtcTime, max_age_ms: u64) -> bool {
        match self.updated_at {
            None => false,
            Some(t) => UtcTime::age(now, t) < 0 || UtcTime::age(now, t) > max_age_ms,
        }
    }

    /// Whether the gates are out of date.
    pub fn is_stale(&self, now: UtcTime, max_age_ms: u64) -> (r: bool)
        requires
            self.valid(),
            now.valid(),
        ensures
            r == self.stale(now, max_age_ms),
    {
        match self.updated_at {
            None => false,
            Some(t) => {
                let age_ms: i64 = now.millis_since(t);
                age_ms < 0 || age_ms as u64 > max_age_ms
            },
        }
    }
}

/// Joins the gates with the runner's own checks.
///
/// Out-of-date gates close the asset-value and regime gates where real money is at stake.
pub fn apply_external_gates(
    gates: &ExternalGates,
    now: UtcTime,
    max_age_ms: u64,
    real_mode: bool,
    self_stock_code: &str,
    internal_subscription_health_ok: bool,
    internal_spread_ok: bool,
) -> (r: ExternalGateApplication)
    requires
        gates.valid(),
        now.valid(),
    ensures
        r.stale_detected == gates.stale(now, max_age_ms),
        r.nav_gate_ok == (gates.nav_gate_ok && !(r.stale_detected && real_mode)),
        r.regime_confirmed == (gates.index_regime.directional() && !(r.stale_detected
            && real_mode)),
        r.active_instrument is Some,
        r.active_instrument->0@ == (match gates.active_instrument {
            Some(code) => code@,
            None => self_stock_code@,
        }),
        r.subscription_health_ok == (internal_subscription_health_ok
            && gates.subscription_health_ok != Some(false)),
        r.spread_ok == (match gates.spread_ok_override {
            Some(verdict) => verdict,
            None => internal_spread_ok,
        }),
{
    let stale: bool = gates.is_stale(now, max_age_ms);
    let closed: bool = stale && real_mode;
    let active_instrument: Option<String> = match &gates.active_instrument {
        Some(code) => Some(code.clone()),
        None => Some(self_stock_code.to_owned()),
    };
    let subscription_health_ok: bool = match gates.subscription_health_ok {
        Some(external) => internal_subscription_health_ok && external,
        None => internal_subscription_health_ok,
    };
    let spread_ok: bool = match gates.spread_ok_override {
        Some(verdict) => verdict,
        None => internal_spread_ok,
    };
    ExternalGateApplication {
        nav_gate_ok: !closed && gates.nav_gate_ok,
        regime_confirmed: !closed && gates.index_regime.is_confirmed_directional(),
        active_instrument,
        subscription_health_ok,
        spread_ok,
        stale_detected: stale,
    }
}

/// The state of every gate at one moment.
#[derive(Debug, Clone)]
pub struct PreflightMetadata {
    /// From this time on nothing is entered.
    pub entry_cutoff: Option<TimeOfDay>,
    pub spread_ok: bool,
    pub spread_ask: Option<i64>,
    pub spread_bid: Option<i64>,
    pub spread_mid: Option<i64>,
    pub spread_raw: Option<i64>,
    pub spread_tick: Option<i64>,
    pub spread_threshold_ticks: u32,
    pub nav_gate_ok: bool,
    pub regime_confirmed: bool,
    /// The stock that is to be traded; `None` allows every stock.
    pub active_instrument: Option<String>,
    pub subscription_health_ok: bool,
    /// What is wrong with the last quote.
    pub quote_issue: Option<String>,
}

impl Default for PreflightMetadata {
    fn default() -> (r: Self)
        ensures
            r == (PreflightMetadata {
                entry_cutoff: None,
                spread_ok: true,
                spread_ask: None,
                spread_bid: None,
                spread_mid: None,
                spread_raw: None,
                spread_tick: None,
                spread_threshold_ticks: DEFAULT_SPREAD_THRESHOLD_TICKS,
                nav_gate_ok: true,
                regime_confirmed: true,
                active_instrument: None,
                subscription_health_ok: true,
                quote_issue: None,
            }),
    {
        PreflightMetadata {
            entry_cutoff: None,
            spread_ok: true,
            spread_ask: None,
            spread_bid: None,
            spread_mid: None,
            spread_raw: None,
            spread_tick: None,
            spread_threshold_ticks: DEFAULT_SPREAD_THRESHOLD_TICKS,
            nav_gate_ok: true,
            regime_confirmed: true,
            active_instrument: None,
            subscription_health_ok: true,
            quote_issue: None,
        }
    }
}

/// The gates of an entry, without the figures behind them.
#[derive(Debug, Clone, Copy, PartialEq, Eq, Structural)]
pub struct GateBits {
    pub subscription_health_ok: bool,
    pub quote_fault: bool,
    pub spread_ok: bool,
    pub nav_gate_ok: bool,
    pub regime_confirmed: bool,
}

impl GateBits {
    /// Every gate is open.
    pub open spec fn open(self) -> bool {
        self.subscription_health_ok && !self.quote_fault && self.spread_ok && self.nav_gate_ok
            && self.regime_confirmed
    }

    /// Whether every gate is open.
    pub fn is_open(self) -> (r: bool)
        ensures
            r == self.open(),
    {
        self.subscription_health_ok && !self.quote_fault && self.spread_ok && self.nav_gate_ok
            && self.regime_confirmed
    }

    /// The first closed gate, as it is named when a poll is blocked.
    pub fn block_reason(self) -> (r: &'static str)
        requires
            !self.open(),
        ensures
            r@ == (if !self.subscription_health_ok {
                "subscription_health_stale"@
            } else if self.quote_fault {
                "quote_invalid"@
            } else if !self.spread_ok {
                "spread_exceeded"@
            } else if !self.nav_gate_ok {
                "nav_gap_exceeded"@
            } else {
                "regime_unconfirmed"@
            }),
    {
        if !self.subscription_health_ok {
            "subscription_health_stale"
        } else if self.quote_fault {
            "quote_invalid"
        } else if !self.spread_ok {
            "spread_exceeded"
        } else if !self.nav_gate_ok {
            "nav_gap_exceeded"
        } else {
            "regime_unconfirmed"
        }
    }
}

impl PreflightMetadata {
    /// The gates, without the figures behind them.
    pub open spec fn gates(self) -> GateBits {
        GateBits {
            subscription_health_ok: self.subscription_health_ok,
            quote_fault: self.quote_issue is Some,
            spread_ok: self.spread_ok,
            nav_gate_ok: self.nav_gate_ok,
            regime_confirmed: self.regime_confirmed,
        }
    }

    /// Time is left before the cutoff.
    pub open spec fn in_time(self, now: TimeOfDay) -> bool {
        self.entry_cutoff matches Some(cutoff) ==> now.earlier(cutoff)
    }

    /// The stock is the one to trade.
    pub open spec fn concerns(self, code: Seq<char>) -> bool {
        self.active_instrument matches Some(active) ==> active@ == code
    }

    /// The gates, without the figures behind them.
    pub fn gate_bits(&self) -> (r: GateBits)
        ensures
            r == self.gates(),
    {
        GateBits {
            subscription_health_ok: self.subscription_health_ok,
            quote_fault: self.quote_issue.is_some(),
            spread_ok: self.spread_ok,
            nav_gate_ok: self.nav_gate_ok,
            regime_confirmed: self.regime_confirmed,
        }
    }

    /// Whether every gate is open.
    pub fn all_ok(&self) -> (r: bool)
        ensures
            r == self.gates().open(),
    {
        self.gate_bits().is_open()
    }

    /// Whether time is left before the cutoff.
    pub fn entry_cutoff_ok(&self, now: TimeOfDay) -> (r: bool)
        ensures
            r == self.in_time(now),
    {
        match self.entry_cutoff {
            Some(cutoff) => now.is_before(cutoff),
            None => true,
        }
    }

    /// Whether the stock is the one to trade.
    pub fn active_instrument_ok(&self, stock_code: &str) -> (r: bool)
        ensures
            r == self.concerns(stock_code@),
    {
        match &self.active_instrument {
            Some(active) => same_text(active.as_str(), stock_code),
            None => true,
        }
    }

    /// Whether the stock may be entered now.
    pub fn allows_entry_for(&self, stock_code: &str, now: TimeOfDay) -> (r: bool)
        ensures
            r == (self.gates().open() && self.in_time(now) && self.concerns(stock_code@)),
    {
        self.all_ok() && self.entry_cutoff_ok(now) && self.active_instrument_ok(stock_code)
    }

    /// The spread and the tick that it is measured in, where both are known and the tick is
    /// positive.  Their quotient is the spread in ticks.
    pub fn spread_in_ticks(&self) -> (r: Option<(i64, i64)>)
        ensures
            r == (if self.spread_raw is Some && self.spread_tick is Some && self.spread_tick->0 > 0 {
                Some((self.spread_raw->0, self.spread_tick->0))
            } else {
                None
            }),
    {
        match (self.spread_raw, self.spread_tick) {
            (Some(raw), Some(tick)) => if tick <= 0 {
                None
            } else {
                Some((raw, tick))
            },
            _ => None,
        }
    }
}

/// Puts together the state of every gate.
///
/// Without gates that others set, the asset-value and regime gates are open and the runner trades
/// its own stock.  A fault of the last quote closes the runner's own spread check.
pub fn refresh_preflight_metadata(
    entry_cutoff: TimeOfDay,
    price_is_fresh: bool,
    quote_issue: Option<String>,
    spread: SpreadGateEvaluation,
    external: Option<&ExternalGates>,
    now: UtcTime,
    max_age_ms: u64,
    real_mode: bool,
    self_stock_code: &str,
) -> (r: (PreflightMetadata, bool))
    requires
        external matches Some(gates) ==> gates.valid(),
        now.valid(),
    ensures
        r.0.entry_cutoff == Some(entry_cutoff),
        r.0.spread_ask == spread.spread_ask,
        r.0.spread_bid == spread.spread_bid,
        r.0.spread_mid == spread.spread_mid,
        r.0.spread_raw == spread.spread_raw,
        r.0.spread_tick == spread.spread_tick,
        r.0.spread_threshold_ticks == spread.spread_threshold_ticks,
        r.0.quote_issue == quote_issue,
        r.1 == (external matches Some(gates) && gates.stale(now, max_age_ms)),
        r.0.nav_gate_ok == (external matches Some(gates) ==> gates.nav_gate_ok && !(r.1
            && real_mode)),
        r.0.regime_confirmed == (external matches Some(gates) ==> gates.index_regime.directional()
            && !(r.1 && real_mode)),
        r.0.subscription_health_ok == (price_is_fresh && !(external matches Some(gates)
            && gates.subscription_health_ok == Some(false))),
        r.0.spread_ok == (match external {
            Some(gates) if gates.spread_ok_override is Some => gates.spread_ok_override->0,
            _ => spread.spread_ok && quote_issue is None,
        }),
        r.0.active_instrument is Some,
        r.0.active_instrument->0@ == (match external {
            Some(gates) if gates.active_instrument is Some => gates.active_instrument->0@,
            _ => self_stock_code@,
        }),
{
    let internal_spread_ok: bool = spread.spread_ok && quote_issue.is_none();
    let app: ExternalGateApplication = match external {
        Some(gates) => apply_external_gates(
            gates,
            now,
            max_age_ms,
            real_mode,
            self_stock_code,
            price_is_fresh,
            internal_spread_ok,
        ),
        None => ExternalGateApplication {
            nav_gate_ok: true,
            regime_confirmed: true,
            active_instrument: Some(self_stock_code.to_owned()),
            subscription_health_ok: price_is_fresh,
            spread_ok: internal_spread_ok,
            stale_detected: false,
        },
    };
    let metadata = PreflightMetadata {
        entry_cutoff: Some(entry_cutoff),
        spread_ok: app.spread_ok,
        spread_ask: spread.spread_ask,
        spread_bid: spread.spread_bid,
        spread_mid: spread.spread_mid,
        spread_raw: spread.spread_raw,
        spread_tick: spread.spread_tick,
        spread_threshold_ticks: spread.spread_threshold_ticks,
        nav_gate_ok: app.nav_gate_ok,
        regime_confirmed: app.regime_confirmed,
        active_instrument: app.active_instrument,
        subscription_health_ok: app.subscription_health_ok,
        quote_issue,
    };
    (metadata, app.stale_detected)
}

/// Gates that nobody sets are never out of date, however much time goes by.
pub proof fn placeholder_gates_never_stale(gates: ExternalGates, now: UtcTime, max_age_ms: u64)
    requires
        gates.updated_at is None,
    ensures
        !gates.stale(now, max_age_ms),
{
}

/// Gates that are still good for a short limit are good for a longer one.
pub proof fn longer_limit_is_not_stricter(
    gates: ExternalGates,
    now: UtcTime,
    short_ms: u64,
    long_ms: u64,
)
    requires
        short_ms <= long_ms,
        !gates.stale(now, short_ms),
    ensures
        !gates.stale(now, long_ms),
{
}

/// A fault of the last quote blocks every entry, whatever the other gates say.
pub proof fn quote_fault_blocks(p: PreflightMetadata)
    requires
        p.quote_issue is Some,
    ensures
        !p.gates().open(),
{
}

/// Gates go out of date after as many whole milliseconds as they may be old, and where they were
/// set a millisecond or more ahead of now.
pub proof fn gates_go_out_of_date(
    gates: ExternalGates,
    set_at: UtcTime,
    now: UtcTime,
    max_age_ms: u64,
)
    requires
        gates.updated_at == Some(set_at),
        set_at.valid(),
        now.valid(),
    ensures
        ({
            let ns = (now.secs - set_at.secs) * 1_000_000_000 + now.nanos - set_at.nanos;
            gates.stale(now, max_age_ms) <==> ns <= -1_000_000 || ns >= (max_age_ms + 1)
                * 1_000_000
        }),
{
    let ns = (now.secs - set_at.secs) * 1_000_000_000 + now.nanos - set_at.nanos;
    assert(ns == now.since_epoch() - set_at.since_epoch());
}

/// Nothing is entered while any one gate is closed, and something may be while none is.
pub proof fn every_gate_counts(p: PreflightMetadata)
    ensures
        !p.subscription_health_ok ==> !p.gates().open(),
        p.quote_issue is Some ==> !p.gates().open(),
        !p.spread_ok ==> !p.gates().open(),
        !p.nav_gate_ok ==> !p.gates().open(),
        !p.regime_confirmed ==> !p.gates().open(),
        p.subscription_health_ok && p.quote_issue is None && p.spread_ok && p.nav_gate_ok
            && p.regime_confirmed ==> p.gates().open(),
{
}

/// Each gate is the one that was set, and no other.
pub proof fn gates_are_those_that_were_set(p: PreflightMetadata)
    ensures
        p.gates().subscription_health_ok == p.subscription_health_ok,
        p.gates().quote_fault == (p.quote_issue is Some),
        p.gates().spread_ok == p.spread_ok,
        p.gates().nav_gate_ok == p.nav_gate_ok,
        p.gates().regime_confirmed == p.regime_confirmed,
{
}

/// Time is left until the cutoff is reached, and no longer; without a cutoff there always is.  The
/// stock to trade is the active one, and without one any.
pub proof fn cutoff_and_instrument_limit_entries(
    p: PreflightMetadata,
    now: TimeOfDay,
    code: Seq<char>,
)
    ensures
        p.entry_cutoff is None ==> p.in_time(now),
        p.entry_cutoff matches Some(c) ==> (p.in_time(now) <==> now.secs < c.secs || (now.secs
            == c.secs && now.nanos < c.nanos)),
        p.active_instrument is None ==> p.concerns(code),
        p.active_instrument matches Some(active) ==> (p.concerns(code) <==> active@ == code),
{
}

/// Only a rising or a falling index has a direction.
pub proof fn only_rise_and_fall_are_directions(r: IndexRegime)
    ensures
        r.directional() <==> r == IndexRegime::Bullish || r == IndexRegime::Bearish,
{
}

} // verus!
