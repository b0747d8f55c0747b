//! Gates that others set, and the watch between a signal and its order.

use chrono::{DateTime, Duration, Utc};
use live_runner::armed::{
    claim_watch, release_watch, ArmedWaitOutcome, ArmedWatch, ArmedWatchStats, WatchReply,
};
use live_runner::clock::{TimeOfDay, UtcTime};
use live_runner::preflight::{apply_external_gates, ExternalGates, GateBits, IndexRegime};

fn utc(t: DateTime<Utc>) -> UtcTime {
    UtcTime { secs: t.timestamp(), nanos: t.timestamp_subsec_nanos() }
}

fn ratio(parts: Option<(u64, u64)>) -> Option<f64> {
    parts.map(|(sum, count)| sum as f64 / count as f64)
}

#[test]
fn external_gates_default_is_open() {
    let g = ExternalGates::default();
    assert!(g.nav_gate_ok);
    assert_eq!(g.index_regime, IndexRegime::Bullish);
    assert!(g.index_regime.is_confirmed_directional());
    assert!(g.active_instrument.is_none());
    assert!(g.subscription_health_ok.is_none());
    assert!(g.spread_ok_override.is_none());
    assert!(g.updated_at.is_none());
}

#[test]
fn index_regime_confirmed_only_for_directional() {
    assert!(IndexRegime::Bullish.is_confirmed_directional());
    assert!(IndexRegime::Bearish.is_confirmed_directional());
    assert!(!IndexRegime::Neutral.is_confirmed_directional());
    assert!(!IndexRegime::Unknown.is_confirmed_directional());
}

#[test]
fn index_regime_labels() {
    assert_eq!(IndexRegime::Bullish.label(), "bullish");
    assert_eq!(IndexRegime::Bearish.label(), "bearish");
    assert_eq!(IndexRegime::Neutral.label(), "neutral");
    assert_eq!(IndexRegime::Unknown.label(), "unknown");
}

#[test]
fn is_stale_returns_false_when_placeholder() {
    let g = ExternalGates::default();
    assert!(!g.is_stale(utc(Utc::now()), 1_000));
}

#[test]
fn is_stale_treats_clock_skew_as_stale() {
    let future = Utc::now() + Duration::seconds(10);
    let g = ExternalGates { updated_at: Some(utc(future)), ..ExternalGates::default() };
    assert!(g.is_stale(utc(Utc::now()), 60_000));
}

#[test]
fn is_stale_boundary_on_max_age() {
    let now = Utc::now();
    let g_old = ExternalGates {
        updated_at: Some(utc(now - Duration::seconds(5))),
        ..ExternalGates::default()
    };
    assert!(g_old.is_stale(utc(now), 1_000));
    assert!(!g_old.is_stale(utc(now), 10_000));
    assert!(!g_old.is_stale(utc(now), 5_000));
    assert!(g_old.is_stale(utc(now), 4_999));
}

#[test]
fn apply_external_gates_placeholder_preserves_values() {
    let g = ExternalGates::default();
    let app = apply_external_gates(&g, utc(Utc::now()), 60_000, true, "122630", true, true);
    assert!(!app.stale_detected);
    assert!(app.nav_gate_ok);
    assert!(app.regime_confirmed);
    assert_eq!(app.active_instrument.as_deref(), Some("122630"));
    assert!(app.subscription_health_ok);
    assert!(app.spread_ok);
}

#[test]
fn apply_external_gates_real_mode_stale_fails_closed() {
    let now = Utc::now();
    let g = ExternalGates {
        updated_at: Some(utc(now - Duration::seconds(30))),
        ..ExternalGates::default()
    };
    let app = apply_external_gates(&g, utc(now), 15_000, true, "122630", true, true);
    assert!(app.stale_detected);
    assert!(!app.nav_gate_ok);
    assert!(!app.regime_confirmed);
}

#[test]
fn apply_external_gates_paper_mode_stale_passes_values_through() {
    let now = Utc::now();
    let g = ExternalGates {
        updated_at: Some(utc(now - Duration::seconds(120))),
        nav_gate_ok: true,
        index_regime: IndexRegime::Bullish,
        ..ExternalGates::default()
    };
    let app = apply_external_gates(&g, utc(now), 60_000, false, "122630", true, true);
    assert!(app.stale_detected);
    assert!(app.nav_gate_ok);
    assert!(app.regime_confirmed);
}

#[test]
fn apply_external_gates_subscription_health_is_and() {
    let now = utc(Utc::now());
    let g_none = ExternalGates { subscription_health_ok: None, ..ExternalGates::default() };
    let a = apply_external_gates(&g_none, now, 60_000, false, "122630", false, true);
    assert!(!a.subscription_health_ok);

    let g_false = ExternalGates { subscription_health_ok: Some(false), ..ExternalGates::default() };
    let b = apply_external_gates(&g_false, now, 60_000, false, "122630", true, true);
    assert!(!b.subscription_health_ok);

    let g_true = ExternalGates { subscription_health_ok: Some(true), ..ExternalGates::default() };
    let c = apply_external_gates(&g_true, now, 60_000, false, "122630", true, true);
    assert!(c.subscription_health_ok);
}

#[test]
fn apply_external_gates_spread_override_replaces_internal() {
    let now = utc(Utc::now());
    let g_none = ExternalGates::default();
    let a = apply_external_gates(&g_none, now, 60_000, false, "122630", true, true);
    assert!(a.spread_ok);
    let b = apply_external_gates(&g_none, now, 60_000, false, "122630", true, false);
    assert!(!b.spread_ok);

    let g_false = ExternalGates { spread_ok_override: Some(false), ..ExternalGates::default() };
    let c = apply_external_gates(&g_false, now, 60_000, false, "122630", true, true);
    assert!(!c.spread_ok);

    let g_true = ExternalGates { spread_ok_override: Some(true), ..ExternalGates::default() };
    let d = apply_external_gates(&g_true, now, 60_000, false, "122630", true, false);
    assert!(d.spread_ok);
}

#[test]
fn apply_external_gates_non_directional_regime_blocks_entry() {
    let now = utc(Utc::now());
    for regime in [IndexRegime::Neutral, IndexRegime::Unknown] {
        let g = ExternalGates { index_regime: regime, ..ExternalGates::default() };
        let app = apply_external_gates(&g, now, 60_000, true, "122630", true, true);
        assert!(!app.regime_confirmed, "{:?}", regime);
    }
}

#[test]
fn apply_external_gates_active_instrument_fallback_to_self() {
    let now = utc(Utc::now());
    let g = ExternalGates { active_instrument: None, ..ExternalGates::default() };
    let app = apply_external_gates(&g, now, 60_000, false, "114800", true, true);
    assert_eq!(app.active_instrument.as_deref(), Some("114800"));
}

#[test]
fn armed_wait_outcome_labels_are_unique_per_variant() {
    let labels: Vec<&'static str> = [
        ArmedWaitOutcome::Ready,
        ArmedWaitOutcome::CutoffReached,
        ArmedWaitOutcome::PreflightFailed("reason"),
        ArmedWaitOutcome::DriftExceeded,
        ArmedWaitOutcome::Stopped,
        ArmedWaitOutcome::Aborted("reason"),
        ArmedWaitOutcome::AlreadyArmed,
    ]
    .iter()
    .map(|o| o.label())
    .collect();
    let mut sorted = labels.clone();
    sorted.sort_unstable();
    sorted.dedup();
    assert_eq!(sorted.len(), labels.len());
}

#[test]
fn armed_wait_outcome_detail_only_for_parametric_variants() {
    assert_eq!(ArmedWaitOutcome::Ready.detail(), None);
    assert_eq!(ArmedWaitOutcome::CutoffReached.detail(), None);
    assert_eq!(ArmedWaitOutcome::DriftExceeded.detail(), None);
    assert_eq!(ArmedWaitOutcome::Stopped.detail(), None);
    assert_eq!(ArmedWaitOutcome::AlreadyArmed.detail(), None);
    assert_eq!(
        ArmedWaitOutcome::PreflightFailed("armed_preflight_nav_failed").detail(),
        Some("armed_preflight_nav_failed")
    );
    assert_eq!(
        ArmedWaitOutcome::Aborted("armed_manual_intervention").detail(),
        Some("armed_manual_intervention")
    );
}

#[test]
fn armed_wait_outcome_severity_flags_warning_cases() {
    let warnings = [
        ArmedWaitOutcome::PreflightFailed("x"),
        ArmedWaitOutcome::DriftExceeded,
        ArmedWaitOutcome::Aborted("x"),
    ];
    for o in warnings {
        assert_eq!(o.severity(), "warning", "{:?}", o);
    }
    let infos = [
        ArmedWaitOutcome::Ready,
        ArmedWaitOutcome::CutoffReached,
        ArmedWaitOutcome::Stopped,
        ArmedWaitOutcome::AlreadyArmed,
    ];
    for o in infos {
        assert_eq!(o.severity(), "info", "{:?}", o);
    }
}

#[test]
fn armed_watch_stats_record_increments_correct_counter() {
    let mut s = ArmedWatchStats::default();
    s.record(&ArmedWaitOutcome::Ready, 180);
    s.record(&ArmedWaitOutcome::PreflightFailed("x"), 50);
    s.record(&ArmedWaitOutcome::DriftExceeded, 120);
    s.record(&ArmedWaitOutcome::CutoffReached, 30);
    s.record(&ArmedWaitOutcome::Stopped, 20);
    s.record(&ArmedWaitOutcome::Aborted("y"), 90);
    s.record(&ArmedWaitOutcome::AlreadyArmed, 0);
    assert_eq!(s.ready_count, 1);
    assert_eq!(s.preflight_failed_count, 1);
    assert_eq!(s.drift_exceeded_count, 1);
    assert_eq!(s.cutoff_count, 1);
    assert_eq!(s.stopped_count, 1);
    assert_eq!(s.aborted_count, 1);
    assert_eq!(s.already_armed_count, 1);
    assert_eq!(s.total_count(), 7);
    assert_eq!(s.total_duration_ms, 180 + 50 + 120 + 30 + 20 + 90);
    assert_eq!(s.max_duration_ms, 180);
}

#[test]
fn armed_watch_stats_repeated_record_accumulates_and_tracks_max() {
    let mut s = ArmedWatchStats::default();
    s.record(&ArmedWaitOutcome::Ready, 100);
    s.record(&ArmedWaitOutcome::Ready, 250);
    s.record(&ArmedWaitOutcome::Ready, 50);
    assert_eq!(s.ready_count, 3);
    assert_eq!(s.total_duration_ms, 400);
    assert_eq!(s.max_duration_ms, 250);
}

#[test]
fn armed_watch_stats_total_duration_saturates() {
    let mut s = ArmedWatchStats { total_duration_ms: u64::MAX - 10, ..ArmedWatchStats::default() };
    s.record(&ArmedWaitOutcome::Ready, 1_000);
    assert_eq!(s.total_duration_ms, u64::MAX);
}

#[test]
fn a_full_count_leaves_room_for_others() {
    let mut s = ArmedWatchStats { ready_count: u64::MAX, ..ArmedWatchStats::default() };
    assert!(!s.has_room(&ArmedWaitOutcome::Ready));
    assert!(s.has_room(&ArmedWaitOutcome::Stopped));
    s.record(&ArmedWaitOutcome::Stopped, 7);
    s.record(&ArmedWaitOutcome::Aborted("x"), 9);
    assert_eq!((s.stopped_count, s.aborted_count, s.ready_count), (1, 1, u64::MAX));
    assert_eq!((s.total_duration_ms, s.aborted_duration_ms_sum), (16, 9));
    let mut t = ArmedWatchStats { ready_count: u64::MAX, ..ArmedWatchStats::default() };
    t.record(&ArmedWaitOutcome::Aborted("x"), 9);
    t.record(&ArmedWaitOutcome::Stopped, 7);
    assert_eq!((t.stopped_count, t.aborted_count, t.max_duration_ms), (1, 1, s.max_duration_ms));
}

#[test]
fn armed_watch_stats_ready_duration_tracked_separately() {
    let mut s = ArmedWatchStats::default();
    s.record(&ArmedWaitOutcome::Ready, 180);
    s.record(&ArmedWaitOutcome::Ready, 220);
    s.record(&ArmedWaitOutcome::Ready, 100);
    s.record(&ArmedWaitOutcome::PreflightFailed("x"), 50);
    s.record(&ArmedWaitOutcome::DriftExceeded, 300);

    assert_eq!(s.ready_count, 3);
    assert_eq!(s.ready_duration_ms_sum, 500);
    assert_eq!(s.ready_duration_ms_max, 220);
    assert_eq!(ratio(s.ready_avg_duration_ms()), Some(500.0 / 3.0));
    assert_eq!(s.total_duration_ms, 180 + 220 + 100 + 50 + 300);
}

#[test]
fn armed_watch_stats_aborted_duration_tracked_separately() {
    let mut s = ArmedWatchStats::default();
    s.record(&ArmedWaitOutcome::Aborted("armed_manual_intervention"), 45);
    s.record(&ArmedWaitOutcome::Aborted("armed_degraded"), 12);
    s.record(&ArmedWaitOutcome::Aborted("armed_manual_intervention"), 200);
    s.record(&ArmedWaitOutcome::Ready, 500);

    assert_eq!(s.aborted_count, 3);
    assert_eq!(s.aborted_duration_ms_sum, 45 + 12 + 200);
    assert_eq!(s.aborted_duration_ms_max, 200);
    assert_eq!(ratio(s.aborted_avg_duration_ms()), Some((45 + 12 + 200) as f64 / 3.0));
    assert_eq!(s.ready_duration_ms_sum, 500);
}

#[test]
fn armed_watch_stats_avg_returns_none_when_empty() {
    let s = ArmedWatchStats::default();
    assert_eq!(ratio(s.ready_avg_duration_ms()), None);
    assert_eq!(ratio(s.aborted_avg_duration_ms()), None);
}

fn open_gates() -> GateBits {
    GateBits {
        subscription_health_ok: true,
        quote_fault: false,
        spread_ok: true,
        nav_gate_ok: true,
        regime_confirmed: true,
    }
}

fn flags(stopped: bool, manual: bool, degraded: bool, elapsed_ms: u64) -> WatchReply {
    WatchReply::Flags {
        stopped,
        manual,
        degraded,
        elapsed_ms,
        now: TimeOfDay { secs: 36_000, nanos: 0 },
    }
}

fn watch() -> ArmedWatch {
    ArmedWatch::begin(200, 5_000, 150, TimeOfDay { secs: 54_000, nanos: 0 }, true).unwrap()
}

#[test]
fn no_budget_means_no_watch() {
    assert!(ArmedWatch::begin(0, 5_000, 150, TimeOfDay { secs: 54_000, nanos: 0 }, true).is_none());
}

#[test]
fn a_watch_is_ready_only_when_its_budget_is_spent() {
    let mut w = watch();
    assert!(w.step(flags(false, false, false, 0)).is_none());
    assert!(w.step(WatchReply::Gates(open_gates())).is_none());
    assert!(w.step(WatchReply::Drift(Some(false))).is_none());
    assert!(w.step(WatchReply::Budget { elapsed_ms: 10 }).is_none());
    assert!(w.step(WatchReply::Woken { stopped: false }).is_none());
    assert!(w.step(flags(false, false, false, 160)).is_none());
    assert!(w.step(WatchReply::Gates(open_gates())).is_none());
    assert!(w.step(WatchReply::Drift(Some(false))).is_none());
    let end = w.step(WatchReply::Budget { elapsed_ms: 210 });
    assert!(matches!(end, Some(ArmedWaitOutcome::Ready)));
}

#[test]
fn a_watch_ends_at_the_first_bad_sign() {
    let end = watch().step(flags(true, false, false, 0));
    assert!(matches!(end, Some(ArmedWaitOutcome::Stopped)));
    let end = watch().step(flags(false, true, false, 0));
    assert!(matches!(end, Some(ArmedWaitOutcome::Aborted("armed_manual_intervention"))));
    let end = watch().step(flags(false, false, true, 0));
    assert!(matches!(end, Some(ArmedWaitOutcome::Aborted("armed_degraded"))));

    let mut w = watch();
    let _ = w.step(flags(false, false, false, 0));
    let end = w.step(WatchReply::Gates(GateBits { nav_gate_ok: false, ..open_gates() }));
    assert!(matches!(
        end,
        Some(ArmedWaitOutcome::PreflightFailed("armed_preflight_nav_failed"))
    ));

    let mut w = watch();
    let _ = w.step(flags(false, false, false, 0));
    let _ = w.step(WatchReply::Gates(open_gates()));
    let end = w.step(WatchReply::Drift(Some(true)));
    assert!(matches!(end, Some(ArmedWaitOutcome::DriftExceeded)));
}

#[test]
fn a_signal_is_watched_once_at_a_time() {
    let mut current: Option<String> = None;
    assert!(claim_watch(&mut current, "s1"));
    assert!(!claim_watch(&mut current, "s1"));
    release_watch(&mut current, &ArmedWaitOutcome::AlreadyArmed);
    assert_eq!(current.as_deref(), Some("s1"));
    release_watch(&mut current, &ArmedWaitOutcome::Ready);
    assert_eq!(current, None);
}

#[test]
fn the_first_closed_gate_is_named() {
    assert_eq!(
        GateBits { subscription_health_ok: false, ..open_gates() }.block_reason(),
        "subscription_health_stale"
    );
    assert_eq!(GateBits { quote_fault: true, ..open_gates() }.block_reason(), "quote_invalid");
    assert_eq!(GateBits { spread_ok: false, ..open_gates() }.block_reason(), "spread_exceeded");
    assert_eq!(GateBits { nav_gate_ok: false, ..open_gates() }.block_reason(), "nav_gap_exceeded");
    assert_eq!(
        GateBits { regime_confirmed: false, ..open_gates() }.block_reason(),
        "regime_unconfirmed"
    );
}
