//! Execution states, quotes and the gates in front of an entry.

use live_runner::clock::TimeOfDay;
use live_runner::execution_state::ExecutionState;
use live_runner::preflight::PreflightMetadata;
use live_runner::quotes::{
    apply_quote_update, best_quote_for_side, evaluate_spread_gate, fresh_price,
    latest_quote_snapshot, validate_quote_sanity, QuoteSanityEvaluation,
};
use live_runner::ticks::{etf_tick_size, round_to_etf_tick};
use live_runner::types::PositionSide;

fn hms(h: u32, m: u32, s: u32) -> TimeOfDay {
    TimeOfDay { secs: h * 3600 + m * 60 + s, nanos: 0 }
}

#[test]
fn default_is_flat() {
    assert_eq!(ExecutionState::default(), ExecutionState::Flat);
}

#[test]
fn derive_from_legacy_prioritizes_manual_over_exit_pending() {
    let s = ExecutionState::derive_from_legacy(true, true, true, true);
    assert_eq!(s, ExecutionState::ManualIntervention);
}

#[test]
fn derive_from_legacy_exit_pending_over_open() {
    let s = ExecutionState::derive_from_legacy(true, true, false, false);
    assert_eq!(s, ExecutionState::ExitPending);
}

#[test]
fn derive_from_legacy_position_to_open() {
    let s = ExecutionState::derive_from_legacy(true, false, false, false);
    assert_eq!(s, ExecutionState::Open);
}

#[test]
fn derive_from_legacy_degraded_over_flat_when_no_position() {
    let s = ExecutionState::derive_from_legacy(false, false, false, true);
    assert_eq!(s, ExecutionState::Degraded);
}

#[test]
fn derive_from_legacy_default_is_flat() {
    let s = ExecutionState::derive_from_legacy(false, false, false, false);
    assert_eq!(s, ExecutionState::Flat);
}

#[test]
fn can_place_entry_only_in_flat_or_signal_armed() {
    assert!(ExecutionState::Flat.can_place_entry());
    assert!(ExecutionState::SignalArmed.can_place_entry());
    assert!(!ExecutionState::Open.can_place_entry());
    assert!(!ExecutionState::EntryPending.can_place_entry());
    assert!(!ExecutionState::ExitPending.can_place_entry());
    assert!(!ExecutionState::ManualIntervention.can_place_entry());
    assert!(!ExecutionState::Degraded.can_place_entry());
}

#[test]
fn can_auto_exit_matches_positionable_states() {
    assert!(ExecutionState::Open.can_auto_exit());
    assert!(ExecutionState::EntryPartial.can_auto_exit());
    assert!(ExecutionState::ExitPartial.can_auto_exit());
    assert!(!ExecutionState::Flat.can_auto_exit());
    assert!(!ExecutionState::ExitPending.can_auto_exit());
    assert!(!ExecutionState::ManualIntervention.can_auto_exit());
}

#[test]
fn is_manageable_position_restricted_to_open_and_entry_partial() {
    assert!(ExecutionState::Open.is_manageable_position());
    assert!(ExecutionState::EntryPartial.is_manageable_position());
    assert!(!ExecutionState::ExitPending.is_manageable_position());
    assert!(!ExecutionState::ExitPartial.is_manageable_position());
    assert!(!ExecutionState::ManualIntervention.is_manageable_position());
    assert!(!ExecutionState::Flat.is_manageable_position());
}

#[test]
fn label_mapping_is_stable() {
    assert_eq!(ExecutionState::Flat.label(), "flat");
    assert_eq!(ExecutionState::SignalArmed.label(), "signal_armed");
    assert_eq!(ExecutionState::EntryPending.label(), "entry_pending");
    assert_eq!(ExecutionState::EntryPartial.label(), "entry_partial");
    assert_eq!(ExecutionState::Open.label(), "open");
    assert_eq!(ExecutionState::ExitPending.label(), "exit_pending");
    assert_eq!(ExecutionState::ExitPartial.label(), "exit_partial");
    assert_eq!(ExecutionState::ManualIntervention.label(), "manual_intervention");
    assert_eq!(ExecutionState::Degraded.label(), "degraded");
}

#[test]
fn preflight_default_all_ok() {
    let pf = PreflightMetadata::default();
    assert!(pf.all_ok());
}

#[test]
fn preflight_all_ok_requires_every_gate_true() {
    let mut pf = PreflightMetadata::default();
    pf.spread_ok = false;
    assert!(!pf.all_ok());

    let mut pf = PreflightMetadata::default();
    pf.nav_gate_ok = false;
    assert!(!pf.all_ok());

    let mut pf = PreflightMetadata::default();
    pf.regime_confirmed = false;
    assert!(!pf.all_ok());

    let mut pf = PreflightMetadata::default();
    pf.subscription_health_ok = false;
    assert!(!pf.all_ok());

    let mut pf = PreflightMetadata::default();
    pf.quote_issue = Some("off_market".to_string());
    assert!(!pf.all_ok());
}

#[test]
fn preflight_allows_entry_only_before_cutoff_for_active_instrument() {
    let pf = PreflightMetadata {
        entry_cutoff: Some(hms(10, 30, 0)),
        active_instrument: Some("122630".to_string()),
        ..PreflightMetadata::default()
    };
    assert!(pf.allows_entry_for("122630", hms(10, 29, 59)));
    assert!(!pf.allows_entry_for("122630", hms(10, 30, 0)));
    assert!(!pf.allows_entry_for("114800", hms(10, 29, 59)));
}

#[test]
fn etf_tick_size_matches_krx_table() {
    assert_eq!(etf_tick_size(1_439), 1);
    assert_eq!(etf_tick_size(4_999), 5);
    assert_eq!(etf_tick_size(49_999), 5);
    assert_eq!(etf_tick_size(50_000), 50);
    assert_eq!(etf_tick_size(101_915), 50);
}

#[test]
fn spread_gate_uses_50won_tick_for_high_priced_etf() {
    let eval = evaluate_spread_gate(Some((101_950, 101_900)), true, 3);
    assert!(eval.spread_ok);
    assert_eq!(eval.spread_tick, Some(50));
    assert_eq!(eval.spread_raw, Some(50));
    assert_eq!(eval.spread_threshold_ticks, 3);
}

#[test]
fn preflight_spread_in_ticks_reports_ratio() {
    let pf = PreflightMetadata {
        spread_raw: Some(100),
        spread_tick: Some(50),
        ..PreflightMetadata::default()
    };
    let ratio = pf.spread_in_ticks().map(|(raw, tick)| raw as f64 / tick as f64);
    assert_eq!(ratio, Some(2.0));
}

#[test]
fn quote_sanity_accepts_normal_quote_near_current_price() {
    assert_eq!(
        validate_quote_sanity(1_405, 1_400, Some(1_402)),
        QuoteSanityEvaluation::Valid
    );
}

#[test]
fn quote_sanity_rejects_inverted_quote() {
    assert_eq!(
        validate_quote_sanity(1_399, 1_400, Some(1_400)),
        QuoteSanityEvaluation::Invalid("inverted")
    );
}

#[test]
fn quote_sanity_rejects_off_market_quote() {
    assert_eq!(
        validate_quote_sanity(20_000, 294_564_483, Some(1_400)),
        QuoteSanityEvaluation::Invalid("inverted")
    );
    assert_eq!(
        validate_quote_sanity(2_000, 1_990, Some(1_400)),
        QuoteSanityEvaluation::Invalid("off_market")
    );
}

#[test]
fn quote_sanity_rejects_a_side_without_price() {
    assert_eq!(
        validate_quote_sanity(0, 1_400, Some(1_400)),
        QuoteSanityEvaluation::Invalid("nonpositive")
    );
}

#[test]
fn huge_quotes_are_looked_at_too() {
    let huge = i64::MAX;
    assert_eq!(validate_quote_sanity(huge, huge, None), QuoteSanityEvaluation::Valid);
    assert_eq!(validate_quote_sanity(huge, huge, Some(huge)), QuoteSanityEvaluation::Valid);
    assert_eq!(
        validate_quote_sanity(huge, huge, Some(huge / 2)),
        QuoteSanityEvaluation::Invalid("off_market")
    );
    assert_eq!(validate_quote_sanity(huge - 1, huge, None), QuoteSanityEvaluation::Invalid("inverted"));
    assert_eq!(validate_quote_sanity(huge, 0, None), QuoteSanityEvaluation::Invalid("nonpositive"));
    assert_eq!(evaluate_spread_gate(Some((huge, huge)), true, 3).spread_mid, Some(huge));
}

#[test]
fn a_missing_quote_closes_the_gate_only_for_real_money() {
    assert!(!evaluate_spread_gate(None, true, 3).spread_ok);
    assert!(evaluate_spread_gate(None, false, 3).spread_ok);
}

#[test]
fn a_faulty_quote_is_remembered_until_a_good_one_comes() {
    let mut issue: Option<String> = None;
    let _ = apply_quote_update(&mut issue, 1_399, 1_400, Some(1_400));
    assert_eq!(issue.as_deref(), Some("inverted"));
    let _ = apply_quote_update(&mut issue, 1_405, 1_400, Some(1_402));
    assert_eq!(issue, None);
}

#[test]
fn old_prices_and_quotes_are_not_relied_on() {
    assert_eq!(fresh_price(Some((100, 29_999))), Some(100));
    assert_eq!(fresh_price(Some((100, 30_000))), None);
    assert_eq!(latest_quote_snapshot(Some((105, 100, 10))), Some((105, 100)));
    assert_eq!(latest_quote_snapshot(Some((105, 100, 30_000))), None);
    assert_eq!(best_quote_for_side(Some((105, 100, 10)), PositionSide::Long), Some(105));
    assert_eq!(best_quote_for_side(Some((105, 100, 10)), PositionSide::Short), Some(100));
}

#[test]
fn rounding_twice_changes_nothing() {
    for price in [1_999, 2_003, 49_998, 50_026, 101_915] {
        let once = round_to_etf_tick(price);
        assert_eq!(round_to_etf_tick(once), once);
    }
}
