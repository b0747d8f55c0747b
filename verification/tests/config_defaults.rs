//! The settings of a runner.

use live_runner::clock::TimeOfDay;
use live_runner::config::{ExecutionPolicyKind, LiveRunnerConfig, TimeoutPolicy};
use live_runner::double::DoubleBits;

fn hms(h: u32, m: u32, s: u32) -> TimeOfDay {
    TimeOfDay { secs: h * 3600 + m * 60 + s, nanos: 0 }
}

fn real_mode() -> LiveRunnerConfig {
    LiveRunnerConfig::for_real_mode(vec!["15m".to_string()], hms(15, 0, 0), true)
}

#[test]
fn paper_default_allowed_stages_is_15m_only() {
    let cfg = LiveRunnerConfig::default();
    assert_eq!(cfg.allowed_stages, Some(vec!["15m".to_string()]));
}

#[test]
fn default_blocks_5m_and_30m_stages() {
    let cfg = LiveRunnerConfig::default();
    assert!(!cfg.is_stage_allowed("5m"));
    assert!(!cfg.is_stage_allowed("30m"));
}

#[test]
fn default_accepts_15m_stage() {
    let cfg = LiveRunnerConfig::default();
    assert!(cfg.is_stage_allowed("15m"));
}

#[test]
fn first_allowed_stage_picks_allowed_15m_over_earlier_5m() {
    let cfg = LiveRunnerConfig::default();
    let got = cfg.first_allowed_stage_name(&vec!["5m", "15m", "30m"]);
    assert_eq!(got, Some("15m"));
}

#[test]
fn first_allowed_stage_returns_none_when_no_overlap() {
    let cfg = LiveRunnerConfig::default();
    let got = cfg.first_allowed_stage_name(&vec!["5m", "30m"]);
    assert_eq!(got, None);
}

#[test]
fn first_allowed_stage_returns_first_when_allowed_is_none() {
    let cfg = LiveRunnerConfig { allowed_stages: None, ..LiveRunnerConfig::default() };
    let got = cfg.first_allowed_stage_name(&vec!["5m", "15m", "30m"]);
    assert_eq!(got, Some("5m"));
}

#[test]
fn first_allowed_stage_returns_none_for_empty_input() {
    let cfg = LiveRunnerConfig::default();
    let empty: Vec<&str> = Vec::new();
    let got = cfg.first_allowed_stage_name(&empty);
    assert_eq!(got, None);
}

#[test]
fn entry_fill_timeout_default_is_60_seconds() {
    let cfg = LiveRunnerConfig::default();
    assert_eq!(cfg.entry_fill_timeout_ms, 60_000);
    assert_eq!(cfg.entry_fill_timeout(), 60_000);
}

#[test]
fn real_mode_defaults_use_marketable_and_fast_timing() {
    let cfg = real_mode();
    assert_eq!(cfg.entry_fill_timeout_ms, 3_000);
    assert_eq!(cfg.poll_interval_ms, 1_000);
    assert_eq!(cfg.manage_poll_interval_ms, 3_000);
    assert_eq!(
        cfg.execution_policy_kind,
        ExecutionPolicyKind::MarketableLimit {
            tick_offset: 1,
            slippage_budget_pct: DoubleBits { bits: 0.003_f64.to_bits() },
        }
    );
    assert_eq!(cfg.max_entry_drift_pct, Some(DoubleBits { bits: 0.005_f64.to_bits() }));
    assert_eq!(cfg.max_daily_trades_override, Some(1));
    assert_eq!(cfg.entry_cutoff_override, Some(hms(15, 0, 0)));
    assert!(cfg.real_mode && cfg.enable_real_orders);
}

#[test]
fn entry_fill_timeout_clamps_too_short_value() {
    let cfg = LiveRunnerConfig { entry_fill_timeout_ms: 50, ..LiveRunnerConfig::default() };
    assert_eq!(cfg.entry_fill_timeout(), 500);
}

#[test]
fn entry_fill_timeout_clamps_excessive_value() {
    let cfg = LiveRunnerConfig { entry_fill_timeout_ms: 120_000, ..LiveRunnerConfig::default() };
    assert_eq!(cfg.entry_fill_timeout(), 60_000);
}

#[test]
fn entry_fill_timeout_accepts_phase3_recommended_range() {
    let cfg = LiveRunnerConfig { entry_fill_timeout_ms: 3_000, ..LiveRunnerConfig::default() };
    assert_eq!(cfg.entry_fill_timeout(), 3_000);
}

#[test]
fn exit_verification_budget_default_is_15_seconds() {
    let cfg = LiveRunnerConfig::default();
    assert_eq!(cfg.exit_verification_budget_ms, 15_000);
}

#[test]
fn exit_fill_timeout_uses_verify_budget_when_it_is_longer() {
    let cfg = LiveRunnerConfig::default();
    assert_eq!(cfg.exit_fill_timeout(), 15_000);
}

#[test]
fn exit_fill_timeout_grows_with_the_retries() {
    let cfg = LiveRunnerConfig {
        exit_ws_notice_timeout_ms: 60_000,
        exit_rest_retries: 99,
        exit_rest_retry_interval_ms: 9_000,
        exit_balance_retries: 0,
        exit_balance_retry_interval_ms: 1,
        ..LiveRunnerConfig::default()
    };
    assert_eq!(cfg.exit_fill_timeout(), 30_000 + 10 * 5_000 + 200);
}

#[test]
fn execution_timeout_policy_uses_live_config_values() {
    let cfg = LiveRunnerConfig {
        real_mode: true,
        entry_fill_timeout_ms: 4_321,
        exit_verification_budget_ms: 12_000,
        ..LiveRunnerConfig::default()
    };
    let real = TimeoutPolicy { entry_submit_ms: 111, entry_fill_ms: 1, exit_fill_ms: 2 };
    let paper = TimeoutPolicy { entry_submit_ms: 222, entry_fill_ms: 3, exit_fill_ms: 4 };
    let policy = cfg.execution_timeout_policy(real, paper);
    assert_eq!(policy.entry_submit_ms, real.entry_submit_ms);
    assert_eq!(policy.entry_fill_ms, 4_321);
    assert_eq!(policy.exit_fill_ms, 12_000);
    let cfg = LiveRunnerConfig::default();
    assert_eq!(cfg.execution_timeout_policy(real, paper).entry_submit_ms, 222);
}

#[test]
fn poll_interval_default_is_5_seconds() {
    let cfg = LiveRunnerConfig::default();
    assert_eq!(cfg.poll_interval_ms, 5_000);
    assert_eq!(cfg.poll_interval(), 5_000);
}

#[test]
fn poll_interval_clamps_too_short_value() {
    let cfg = LiveRunnerConfig { poll_interval_ms: 10, ..LiveRunnerConfig::default() };
    assert_eq!(cfg.poll_interval(), 200);
}

#[test]
fn poll_interval_clamps_excessive_value() {
    let cfg = LiveRunnerConfig { poll_interval_ms: 120_000, ..LiveRunnerConfig::default() };
    assert_eq!(cfg.poll_interval(), 30_000);
}

#[test]
fn poll_interval_accepts_phase4_recommended_range() {
    let cfg = LiveRunnerConfig { poll_interval_ms: 1_500, ..LiveRunnerConfig::default() };
    assert_eq!(cfg.poll_interval(), 1_500);
}

#[test]
fn manage_poll_interval_default_is_3_seconds() {
    let cfg = LiveRunnerConfig::default();
    assert_eq!(cfg.manage_poll_interval_ms, 3_000);
    assert_eq!(cfg.manage_poll_interval(), 3_000);
}

#[test]
fn manage_poll_interval_clamps_extremes() {
    let too_short = LiveRunnerConfig { manage_poll_interval_ms: 50, ..LiveRunnerConfig::default() };
    assert_eq!(too_short.manage_poll_interval(), 200);
    let too_long =
        LiveRunnerConfig { manage_poll_interval_ms: 60_000, ..LiveRunnerConfig::default() };
    assert_eq!(too_long.manage_poll_interval(), 10_000);
}

#[test]
fn armed_watch_paper_default_is_zero_real_is_two_hundred_ms() {
    let paper = LiveRunnerConfig::default();
    assert_eq!(paper.armed_watch_budget_ms, 0);
    assert_eq!(real_mode().armed_watch_budget_ms, 200);
}

#[test]
fn armed_tick_check_interval_default_is_150ms() {
    let cfg = LiveRunnerConfig::default();
    assert_eq!(cfg.armed_tick_check_interval_ms, 150);
}

#[test]
fn external_gate_max_age_defaults() {
    let paper = LiveRunnerConfig::default();
    assert_eq!(paper.external_gate_max_age_ms, 60_000);
    let real = LiveRunnerConfig::for_real_mode(vec!["15m".to_string()], hms(10, 30, 0), true);
    assert_eq!(real.external_gate_max_age_ms, 15_000);
}

#[test]
fn overrides_take_the_place_of_defaults() {
    let cfg = LiveRunnerConfig::default();
    assert_eq!(cfg.effective_max_daily_trades(5), 5);
    assert_eq!(cfg.effective_entry_cutoff(hms(15, 20, 0)), hms(15, 20, 0));
    assert_eq!(real_mode().effective_max_daily_trades(5), 1);
    assert_eq!(real_mode().effective_entry_cutoff(hms(15, 20, 0)), hms(15, 0, 0));
}

#[test]
fn entry_mode_labels() {
    assert_eq!(ExecutionPolicyKind::PassiveZoneEdge.entry_mode_label(), "limit_passive");
    assert_eq!(real_mode().execution_policy_kind.entry_mode_label(), "marketable_limit");
}
