//! Verifying exits, and reading the broker's answers.

use live_runner::broker::{
    available_cash, cancel_all_result, holding_reply, notice_fill, orders_to_cancel, parse_execution_query_items,
    parse_holding_snapshot, pause_after_attempt, priced_rows, query_failed, ExecutionNotice,
    ExecutionQueryOutcome, ExecutionRow, FieldValue, FillRequest, FillSearch, HoldingRow,
    PendingRow,
};
use live_runner::exit::{
    ExecutionQueryDiagnostics, ExitResolutionSource, ExitTraceMeta, ExitVerification,
};
use live_runner::types::{Fill, HoldingReply};

fn make(
    holdings: Option<u64>,
    price: Option<i64>,
    src: ExitResolutionSource,
) -> ExitVerification {
    ExitVerification {
        filled_qty: 0,
        filled_price: price,
        holdings_after: holdings,
        resolution_source: src,
        ws_received: false,
        rest_execution_attempts: Vec::new(),
    }
}

#[test]
fn can_flat_only_when_holdings_zero_confirmed() {
    let v = make(Some(0), Some(10_000), ExitResolutionSource::WsNotice);
    assert!(v.can_flat());
    assert!(!v.has_remaining());
}

#[test]
fn can_flat_blocks_when_holdings_remain() {
    let v = make(Some(3), Some(10_000), ExitResolutionSource::RestExecution);
    assert!(!v.can_flat());
    assert!(v.has_remaining());
}

#[test]
fn balance_lookup_failure_is_treated_as_remaining() {
    let v = make(None, Some(10_000), ExitResolutionSource::RestExecution);
    assert!(!v.can_flat());
    assert!(v.has_remaining());
}

#[test]
fn can_flat_true_even_with_unknown_price() {
    let v = make(Some(0), None, ExitResolutionSource::BalanceOnly);
    assert!(v.can_flat());
    assert!(!v.has_remaining());
}

#[test]
fn tp_limit_meta_not_price_unknown() {
    let m = ExitTraceMeta::tp_limit();
    assert!(!m.fill_price_unknown);
    assert_eq!(m.exit_resolution_source, "tp_limit");
}

#[test]
fn resolved_meta_records_source_label() {
    let m = ExitTraceMeta::resolved(ExitResolutionSource::WsNotice);
    assert!(!m.fill_price_unknown);
    assert_eq!(m.exit_resolution_source, "ws_notice");

    let m2 = ExitTraceMeta::resolved(ExitResolutionSource::RestExecution);
    assert_eq!(m2.exit_resolution_source, "rest_execution");
}

#[test]
fn price_unknown_meta_sets_flag_and_label() {
    let m = ExitTraceMeta::price_unknown(ExitResolutionSource::BalanceOnly);
    assert!(m.fill_price_unknown);
    assert_eq!(m.exit_resolution_source, "balance_only");
}

#[test]
fn resolution_source_label_mapping_is_stable() {
    assert_eq!(ExitResolutionSource::WsNotice.label(), "ws_notice");
    assert_eq!(ExitResolutionSource::RestExecution.label(), "rest_execution");
    assert_eq!(ExitResolutionSource::BalanceOnly.label(), "balance_only");
    assert_eq!(ExitResolutionSource::Unresolved.label(), "unresolved");
    assert_eq!(ExitResolutionSource::TpLimit.label(), "tp_limit");
}

#[test]
fn default_meta_is_benign_zero() {
    let d = ExitTraceMeta::default();
    assert!(!d.fill_price_unknown);
    assert_eq!(d.exit_resolution_source, "");
}

fn text(s: &str) -> FieldValue {
    FieldValue::Text(s.to_string())
}

fn row(odno: &str, qty: &str, avg: &str) -> (ExecutionRow, f64) {
    let price = avg.parse::<f64>().unwrap_or(0.0);
    (ExecutionRow { order_no: text(odno), qty: text(qty), priced: price > 0.0 }, price)
}

fn parse(
    order_no: &str,
    phase: &str,
    attempt: u32,
    rows: Vec<(ExecutionRow, f64)>,
) -> ExecutionQueryOutcome {
    let (items, prices): (Vec<ExecutionRow>, Vec<f64>) = rows.into_iter().unzip();
    let parts = priced_rows(&items, order_no);
    let total: u64 = parts.iter().map(|p| p.1).sum();
    let sum: f64 = parts.iter().map(|p| prices[p.0] * p.1 as f64).sum();
    let avg = if total > 0 { (sum / total as f64).round() as i64 } else { 0 };
    parse_execution_query_items(order_no, phase, attempt, &items, avg)
}

#[test]
fn execution_query_parser_aggregates_matching_rows_by_weighted_average() {
    let items = vec![row("A", "10", "1000"), row("A", "30", "1020"), row("B", "99", "9999")];
    let outcome = parse("A", "post_balance_flat", 2, items);
    assert_eq!(outcome.fill, Some(Fill { price: 1015, qty: 40 }));
    assert_eq!(outcome.diagnostics.status, "filled");
    assert_eq!(outcome.diagnostics.output_rows, 3);
    assert_eq!(outcome.diagnostics.matched_rows, 2);
    assert_eq!(outcome.diagnostics.priced_qty, 40);
}

#[test]
fn execution_query_parser_distinguishes_zero_qty_and_missing_order() {
    let zero = parse("A", "pre_balance", 1, vec![row("A", "0", "1000")]);
    assert_eq!(zero.fill, None);
    assert_eq!(zero.diagnostics.status, "matched_zero_qty");

    let missing = parse("B", "pre_balance", 1, vec![row("A", "0", "1000")]);
    assert_eq!(missing.fill, None);
    assert_eq!(missing.diagnostics.status, "order_not_found");
}

#[test]
fn execution_query_parser_tells_missing_prices_apart() {
    let none = parse("A", "direct", 1, vec![row("A", "7", "0")]);
    assert_eq!(none.fill, None);
    assert_eq!(none.diagnostics.status, "matched_no_price");

    let some = parse("A", "direct", 1, vec![row("A", "7", "0"), row("A", "3", "500")]);
    assert_eq!(some.fill, Some(Fill { price: 500, qty: 10 }));
    assert_eq!(some.diagnostics.status, "filled_partial_price");
    assert_eq!(some.diagnostics.avg_price, Some(500));
}

#[test]
fn failed_queries_say_why() {
    let q = query_failed("A", "direct", 1, "http_error", Some("boom".to_string()));
    assert_eq!(q.fill, None);
    assert_eq!(q.diagnostics.status, "http_error");
    assert_eq!(q.diagnostics.error.as_deref(), Some("boom"));
    assert_eq!(q.diagnostics.output_rows, 0);
}

#[test]
fn rest_diagnostics_json_keeps_last_status_for_metadata() {
    let mut v = make(Some(0), None, ExitResolutionSource::BalanceOnly);
    v.rest_execution_attempts.push(ExecutionQueryDiagnostics {
        phase: "pre_balance".to_string(),
        attempt: 1,
        order_no: "0001".to_string(),
        status: "matched_zero_qty".to_string(),
        output_rows: 0,
        matched_rows: 0,
        matched_qty: 0,
        priced_qty: 0,
        avg_price: None,
        error: None,
    });
    assert_eq!(v.rest_execution_last_status(), Some("matched_zero_qty"));
    assert_eq!(v.rest_execution_attempts[0].phase, "pre_balance");
    assert_eq!(v.rest_execution_attempts[0].status, "matched_zero_qty");
}

fn holding(code: &str, qty: &str, avg: Option<&str>) -> HoldingRow {
    HoldingRow {
        code: Some(code.to_string()),
        qty: Some(qty.to_string()),
        avg: avg.and_then(|a| a.parse::<f64>().ok()).map(|f| f as i64),
    }
}

#[test]
fn qty_gt_zero_with_valid_avg_returns_both() {
    let items = vec![holding("122630", "54", Some("92450.5"))];
    assert_eq!(parse_holding_snapshot(&items, "122630"), Some((54u64, Some(92_450i64))));
}

#[test]
fn qty_gt_zero_with_zero_avg_still_treated_as_holding() {
    let items = vec![holding("122630", "54", Some("0"))];
    assert_eq!(parse_holding_snapshot(&items, "122630"), Some((54u64, None)));
}

#[test]
fn qty_gt_zero_with_missing_avg_still_treated_as_holding() {
    let items = vec![holding("122630", "3", None)];
    assert_eq!(parse_holding_snapshot(&items, "122630"), Some((3u64, None)));
}

#[test]
fn qty_gt_zero_with_unparseable_avg_returns_none_avg() {
    let items = vec![holding("122630", "10", Some("N/A"))];
    assert_eq!(parse_holding_snapshot(&items, "122630"), Some((10u64, None)));
}

#[test]
fn qty_zero_skipped_other_items_considered() {
    let items =
        vec![holding("122630", "0", Some("91000")), holding("122630", "7", Some("91500"))];
    assert_eq!(parse_holding_snapshot(&items, "122630"), Some((7u64, Some(91_500i64))));
}

#[test]
fn other_stock_codes_ignored() {
    let items =
        vec![holding("114800", "20", Some("1500")), holding("005930", "50", Some("70000"))];
    assert_eq!(parse_holding_snapshot(&items, "122630"), None);
}

#[test]
fn empty_items_returns_none() {
    assert_eq!(parse_holding_snapshot(&Vec::new(), "122630"), None);
}

#[test]
fn a_balance_that_cannot_be_read_is_no_empty_balance() {
    assert_eq!(holding_reply(&None, "122630"), HoldingReply::Failed);
    assert_eq!(holding_reply(&Some(Vec::new()), "122630"), HoldingReply::Nothing);
    assert_eq!(
        holding_reply(&Some(vec![holding("122630", "7", None)]), "122630"),
        HoldingReply::Held { qty: 7, avg: None }
    );
}

#[test]
fn cash_is_read_or_counts_as_none() {
    assert_eq!(available_cash(&Some("1234567".to_string())), 1_234_567);
    assert_eq!(available_cash(&Some("-5".to_string())), -5);
    assert_eq!(available_cash(&Some("x".to_string())), 0);
    assert_eq!(available_cash(&None), 0);
}

#[test]
fn only_known_orders_of_the_stock_are_cancelled() {
    let pending = |code: &str, no: &str| PendingRow {
        code: Some(code.to_string()),
        order_no: Some(no.to_string()),
        qty: Some("1".to_string()),
    };
    let rows =
        vec![pending("114800", "1"), pending("122630", ""), pending("122630", "2"), pending("122630", "3")];
    assert_eq!(orders_to_cancel(&rows, "122630"), vec![2, 3]);
    assert_eq!(cancel_all_result(2, 0), Ok(2));
    assert_eq!(cancel_all_result(0, 0), Ok(0));
    assert_eq!(cancel_all_result(1, 1), Err(1));
}

#[test]
fn field_values_as_texts() {
    assert_eq!(text("  a b ").as_text().as_deref(), Some("a b"));
    assert_eq!(FieldValue::Signed(-42).as_text().as_deref(), Some("-42"));
    assert_eq!(FieldValue::Unsigned(u64::MAX).as_text().as_deref(), Some("18446744073709551615"));
    assert_eq!(FieldValue::Missing.as_text(), None);
}

#[test]
fn notices_count_for_their_order_only() {
    let notice = ExecutionNotice {
        order_no: "7".to_string(),
        is_filled: true,
        filled_price: 100,
        filled_qty: 3,
    };
    assert_eq!(notice_fill(&notice, "7"), Some(Fill { price: 100, qty: 3 }));
    assert_eq!(notice_fill(&notice, "8"), None);
    let open = ExecutionNotice { is_filled: false, ..notice.clone() };
    assert_eq!(notice_fill(&open, "7"), None);
    let free = ExecutionNotice { filled_price: 0, ..notice };
    assert_eq!(notice_fill(&free, "7"), None);
}

#[test]
fn a_fill_is_searched_for_seven_times() {
    let mut s = FillSearch::begin(true);
    assert_eq!(s.request(), FillRequest::AwaitNotice { timeout_ms: 5_000 });
    s.step(None);
    let mut pauses = Vec::new();
    while let FillRequest::QueryExecution { after_ms } = s.request() {
        pauses.push(after_ms);
        s.step(None);
    }
    assert_eq!(pauses, vec![0, 2_000, 2_000, 2_000, 2_000, 5_000]);
    assert_eq!(s.request(), FillRequest::Finished(None));

    let mut s = FillSearch::begin(false);
    let fill = Fill { price: 5, qty: 6 };
    s.step(Some(fill));
    assert_eq!(s.request(), FillRequest::Finished(Some(fill)));
}

#[test]
fn pauses_double() {
    assert_eq!(pause_after_attempt(0), Some(500));
    assert_eq!(pause_after_attempt(1), Some(1_000));
    assert_eq!(pause_after_attempt(2), None);
}
