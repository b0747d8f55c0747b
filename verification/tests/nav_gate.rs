//! Prices against net asset values.

use chrono::{DateTime, Duration, Utc};
use live_runner::clock::UtcTime;
use live_runner::double::DoubleBits;
use live_runner::nav_gate::{evaluate_nav_gate, NavDecision, NavGateConfig, NavSnapshot};

fn utc(t: DateTime<Utc>) -> UtcTime {
    UtcTime { secs: t.timestamp(), nanos: t.timestamp_subsec_nanos() }
}

fn bits(x: f64) -> DoubleBits {
    DoubleBits { bits: x.to_bits() }
}

fn value(d: DoubleBits) -> f64 {
    f64::from_bits(d.bits)
}

fn snapshot(price: i64, nav: f64, age_ms: i64) -> (NavSnapshot, DateTime<Utc>) {
    let now = Utc::now();
    let snap = NavSnapshot {
        price,
        nav: bits(nav),
        nav_updated_at: utc(now - Duration::milliseconds(age_ms)),
    };
    (snap, now)
}

fn evaluate(s: &NavSnapshot, cfg: &NavGateConfig, now: DateTime<Utc>) -> NavDecision {
    let nav = value(s.nav);
    let deviation = ((s.price as f64 - nav) / nav).abs();
    evaluate_nav_gate(s, cfg, utc(now), bits(deviation))
}

#[test]
fn pass_when_deviation_is_small_and_fresh() {
    let cfg = NavGateConfig::default();
    let (s, now) = snapshot(10_020, 10_000.0, 100);
    let d = evaluate(&s, &cfg, now);
    assert!(d.is_pass());
    match d {
        NavDecision::Pass { deviation_pct } => {
            assert!((value(deviation_pct) - 0.002).abs() < 1e-9);
        }
        _ => panic!("expected Pass"),
    }
}

#[test]
fn fail_deviation_when_spread_exceeds_max() {
    let cfg = NavGateConfig::default();
    let (s, now) = snapshot(10_100, 10_000.0, 100);
    let d = evaluate(&s, &cfg, now);
    match d {
        NavDecision::FailDeviation { deviation_pct } => {
            assert!((value(deviation_pct) - 0.01).abs() < 1e-9);
        }
        _ => panic!("expected FailDeviation, got {:?}", d),
    }
}

#[test]
fn fail_stale_when_older_than_max_stale() {
    let cfg = NavGateConfig::default();
    let (s, now) = snapshot(10_000, 10_000.0, 10_000);
    match evaluate(&s, &cfg, now) {
        NavDecision::FailStale { age_ms } => {
            assert!(age_ms >= 10_000);
        }
        other => panic!("expected FailStale, got {:?}", other),
    }
}

#[test]
fn fail_stale_on_clock_skew_negative_age() {
    let cfg = NavGateConfig::default();
    let now = Utc::now();
    let s = NavSnapshot {
        price: 10_000,
        nav: bits(10_000.0),
        nav_updated_at: utc(now + Duration::seconds(10)),
    };
    match evaluate(&s, &cfg, now) {
        NavDecision::FailStale { age_ms } => assert!(age_ms < 0),
        other => panic!("expected FailStale, got {:?}", other),
    }
}

#[test]
fn fail_invalid_when_nav_is_zero() {
    let cfg = NavGateConfig::default();
    let (s, now) = snapshot(10_000, 0.0, 100);
    assert_eq!(evaluate(&s, &cfg, now), NavDecision::FailInvalidNav);
}

#[test]
fn fail_invalid_when_nav_is_negative() {
    let cfg = NavGateConfig::default();
    let (s, now) = snapshot(10_000, -100.0, 100);
    assert_eq!(evaluate(&s, &cfg, now), NavDecision::FailInvalidNav);
}

#[test]
fn fail_invalid_when_nav_is_nan_or_infinite() {
    let cfg = NavGateConfig::default();
    let (s_nan, now) = snapshot(10_000, f64::NAN, 100);
    assert_eq!(evaluate(&s_nan, &cfg, now), NavDecision::FailInvalidNav);
    let (s_inf, now) = snapshot(10_000, f64::INFINITY, 100);
    assert_eq!(evaluate(&s_inf, &cfg, now), NavDecision::FailInvalidNav);
}

#[test]
fn pass_exactly_on_boundary() {
    let cfg = NavGateConfig { max_deviation_pct: bits(0.005), max_stale_ms: 5_000 };
    let (s, now) = snapshot(10_050, 10_000.0, 100);
    let d = evaluate(&s, &cfg, now);
    assert!(d.is_pass(), "exactly 0.50% should still pass, got {:?}", d);
}

#[test]
fn pass_exactly_on_stale_boundary() {
    let cfg = NavGateConfig { max_deviation_pct: bits(0.005), max_stale_ms: 5_000 };
    let (s, now) = snapshot(10_000, 10_000.0, 5_000);
    let d = evaluate(&s, &cfg, now);
    assert!(d.is_pass(), "age at the limit should still pass, got {:?}", d);
}

#[test]
fn label_maps_each_variant() {
    assert_eq!(NavDecision::Pass { deviation_pct: bits(0.0) }.label(), "nav_pass");
    assert_eq!(
        NavDecision::FailDeviation { deviation_pct: bits(0.02) }.label(),
        "nav_fail_deviation"
    );
    assert_eq!(NavDecision::FailStale { age_ms: 10_000 }.label(), "nav_fail_stale");
    assert_eq!(NavDecision::FailInvalidNav.label(), "nav_fail_invalid");
}

#[test]
fn bit_patterns_compare_as_their_values_do() {
    let xs = [
        f64::NEG_INFINITY,
        -1.5,
        -0.0,
        0.0,
        1e-310,
        0.001,
        0.5,
        1.0,
        2.5,
        f64::INFINITY,
        f64::NAN,
    ];
    for a in xs {
        for b in xs {
            assert_eq!(bits(a).exceeds(bits(b)), a > b, "{a} > {b}");
            assert_eq!(bits(a).at_most(bits(b)), a <= b, "{a} <= {b}");
        }
        assert_eq!(bits(a).is_proper(), a > 0.0 && a.is_finite());
    }
}
