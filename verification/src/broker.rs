//! What the broker's answers say.

use crate::exit::ExecutionQueryDiagnostics;
use crate::text::{
    decimal, parse_i64, parse_u64, push_i64, push_u64, same_text, signed_value, trim, trimmed,
    unsigned_value,
};
use crate::types::{Fill, HoldingReply};
use vstd::prelude::*;
use vstd::string::*;

verus! {

/// One row of the balance.  `avg` is the average purchase price without its fraction, where it
/// can be read.
#[derive(Debug, Clone)]
pub struct HoldingRow {
    pub code: Option<String>,
    pub qty: Option<String>,
    pub avg: Option<i64>,
}

impl HoldingRow {
    /// The row is about a stock.
    pub open spec fn concerns(self, code: Seq<char>) -> bool {
        match self.code {
            Some(c) => c@ == code,
            None => code.len() == 0,
        }
    }

    /// How much the row says is held; what cannot be read counts as nothing.
    pub open spec fn held(self) -> u64 {
        match self.qty {
            Some(q) => match unsigned_value(q@, u64::MAX as int) {
                Some(v) => v as u64,
                None => 0,
            },
            None => 0,
        }
    }

    /// The average purchase price, where the row gives a positive one.
    pub open spec fn average(self) -> Option<i64> {
        match self.avg {
            Some(a) if a > 0 => Some(a),
            _ => None,
        }
    }

    /// Whether the row is about a stock, and how much it says is held.
    fn read(&self, code: &str) -> (r: (bool, u64))
        ensures
            r == (self.concerns(code@), self.held()),
    {
        let about: bool = match &self.code {
            Some(c) => same_text(c.as_str(), code),
            None => code.unicode_len() == 0,
        };
        let qty: u64 = match &self.qty {
            Some(q) => match parse_u64(q.as_str()) {
                Some(v) => v,
                None => 0,
            },
            None => 0,
        };
        (about, qty)
    }
}

/// What the balance says of a stock: the first of its rows that shows any.
pub open spec fn holding_in(rows: Seq<HoldingRow>, code: Seq<char>) -> Option<(u64, Option<i64>)>
    decreases rows.len(),
{
    if rows.len() == 0 {
        None
    } else if rows[0].concerns(code) && rows[0].held() > 0 {
        Some((rows[0].held(), rows[0].average()))
    } else {
        holding_in(rows.drop_first(), code)
    }
}

/// What the balance says of a stock: how much is held, and the average purchase price where it is
/// given.  A row without quantity is passed over; one without a price counts.
pub fn parse_holding_snapshot(items: &Vec<HoldingRow>, stock_code: &str) -> (r: Option<
    (u64, Option<i64>),
>)
    ensures
        r == holding_in(items@, stock_code@),
{
    let mut i: usize = 0;
    proof {
        assert(items@.skip(0) =~= items@);
    }
    while i < items.len()
        invariant
            i <= items.len(),
            holding_in(items@, stock_code@) == holding_in(items@.skip(i as int), stock_code@),
        decreases items.len() - i,
    {
        let item: &HoldingRow = &items[i];
        proof {
            assert(items@.skip(i as int).drop_first() =~= items@.skip(i + 1));
        }
        let (about, qty): (bool, u64) = item.read(stock_code);
        if about && qty > 0 {
            let avg: Option<i64> = match item.avg {
                Some(a) => if a > 0 {
                    Some(a)
                } else {
                    None
                },
                None => None,
            };
            return Some((qty, avg));
        }
        i = i + 1;
    }
    None
}

/// The outcome of a balance enquiry: what was read, or that nothing could be read.
pub fn holding_reply(rows: &Option<Vec<HoldingRow>>, stock_code: &str) -> (r: HoldingReply)
    ensures
        r == (match *rows {
            None => HoldingReply::Failed,
            Some(items) => match holding_in(items@, stock_code@) {
                None => HoldingReply::Nothing,
                Some((qty, avg)) => HoldingReply::Held { qty, avg },
            },
        }),
{
    match rows {
        None => HoldingReply::Failed,
        Some(items) => match parse_holding_snapshot(items, stock_code) {
            None => HoldingReply::Nothing,
            Some((qty, avg)) => HoldingReply::Held { qty, avg },
        },
    }
}

/// A holding that the balance shows is never of nothing, and its price never zero or less.
pub proof fn shown_holdings_are_real(rows: Seq<HoldingRow>, code: Seq<char>)
    ensures
        match holding_in(rows, code) {
            Some((qty, avg)) => qty > 0 && (avg matches Some(a) ==> a > 0),
            None => forall|i: int|
                0 <= i < rows.len() && (#[trigger] rows[i]).concerns(code) ==> rows[i].held() == 0,
        },
    decreases rows.len(),
{
    if rows.len() > 0 {
        shown_holdings_are_real(rows.drop_first(), code);
        if holding_in(rows, code) is None {
            assert forall|i: int| 0 <= i < rows.len() && (#[trigger] rows[i]).concerns(
                code,
            ) implies rows[i].held() == 0 by {
                if i > 0 {
                    assert(rows.drop_first()[i - 1] == rows[i]);
                }
            }
        }
    }
}

/// The cash that the balance gives, or nothing if it cannot be read.
pub fn available_cash(field: &Option<String>) -> (r: i64)
    ensures
        r == (match *field {
            Some(t) => match signed_value(t@) {
                Some(v) => v,
                None => 0,
            },
            None => 0,
        }),
{
    match field {
        Some(t) => match parse_i64(t.as_str()) {
            Some(v) => v,
            None => 0,
        },
        None => 0,
    }
}

/// One row of the list of orders that are out.
#[derive(Debug, Clone)]
pub struct PendingRow {
    pub code: Option<String>,
    pub order_no: Option<String>,
    pub qty: Option<String>,
}

impl PendingRow {
    /// The order is one of the stock, and its number is known.
    pub open spec fn cancellable(self, code: Seq<char>) -> bool {
        &&& (match self.code {
            Some(c) => c@ == code,
            None => code.len() == 0,
        })
        &&& (self.order_no matches Some(no) && no@.len() > 0)
    }
}

/// How many of the orders can be cancelled.
pub open spec fn cancellable_before(rows: Seq<PendingRow>, code: Seq<char>, i: int) -> int
    decreases i,
{
    if i <= 0 {
        0
    } else {
        cancellable_before(rows, code, i - 1) + (if rows[i - 1].cancellable(code) {
            1int
        } else {
            0
        })
    }
}

/// The orders of a stock that can be cancelled, as places in the list.
pub fn orders_to_cancel(rows: &Vec<PendingRow>, code: &str) -> (r: Vec<usize>)
    ensures
        r@.len() == cancellable_before(rows@, code@, rows@.len() as int),
        forall|k: int|
            0 <= k < r@.len() ==> {
                let i = #[trigger] r@[k];
                i < rows@.len() && rows@[i as int].cancellable(code@) && cancellable_before(
                    rows@,
                    code@,
                    i as int,
                ) == k
            },
{
    let mut out: Vec<usize> = Vec::new();
    let mut i: usize = 0;
    while i < rows.len()
        invariant
            i <= rows.len(),
            out@.len() == cancellable_before(rows@, code@, i as int),
            forall|k: int|
                0 <= k < out@.len() ==> {
                    let p = #[trigger] out@[k];
                    p < rows@.len() && rows@[p as int].cancellable(code@) && cancellable_before(
                        rows@,
                        code@,
                        p as int,
                    ) == k
                },
        decreases rows.len() - i,
    {
        let row: &PendingRow = &rows[i];
        let about: bool = match &row.code {
            Some(c) => same_text(c.as_str(), code),
            None => code.unicode_len() == 0,
        };
        let known: bool = match &row.order_no {
            Some(no) => no.as_str().unicode_len() > 0,
            None => false,
        };
        if about && known {
            out.push(i);
        }
        i = i + 1;
    }
    out
}

/// What became of cancelling the orders of a stock: how many were, or, where a request failed and
/// orders may be left, how many requests failed.
pub fn cancel_all_result(cancelled: usize, failures: usize) -> (r: Result<usize, usize>)
    ensures
        failures > 0 ==> r == Err::<usize, usize>(failures),
        failures == 0 ==> r == Ok::<usize, usize>(cancelled),
{
    if failures > 0 {
        Err(failures)
    } else {
        Ok(cancelled)
    }
}

/// A single value in an answer.  A fraction comes as it is written out.
#[derive(Debug, Clone)]
pub enum FieldValue {
    Missing,
    Text(String),
    Signed(i64),
    Unsigned(u64),
    Fraction(String),
    Other,
}

impl FieldValue {
    /// The value as a text, where it has one: texts without space around them, numbers written
    /// out.
    pub open spec fn words(self) -> Option<Seq<char>> {
        match self {
            FieldValue::Text(t) => Some(trimmed(t@)),
            FieldValue::Signed(n) => Some(decimal(n as int)),
            FieldValue::Unsigned(n) => Some(decimal(n as int)),
            FieldValue::Fraction(t) => Some(t@),
            FieldValue::Missing | FieldValue::Other => None,
        }
    }

    /// The value as a text, where it has one.
    pub fn as_text(&self) -> (r: Option<String>)
        ensures
            match r {
                Some(t) => self.words() == Some(t@),
                None => self.words() is None,
            },
    {
        match self {
            FieldValue::Text(t) => Some(trim(t.as_str())),
            FieldValue::Signed(n) => {
                let mut out: String = String::new();
                push_i64(&mut out, *n);
                assert(out@ =~= decimal(*n as int));
                Some(out)
            },
            FieldValue::Unsigned(n) => {
                let mut out: String = String::new();
                push_u64(&mut out, *n);
                assert(out@ =~= decimal(*n as int));
                Some(out)
            },
            FieldValue::Fraction(t) => Some(t.clone()),
            FieldValue::Missing | FieldValue::Other => None,
        }
    }
}

/// One row of the execution list.  `priced`: its average price is positive.
#[derive(Debug, Clone)]
pub struct ExecutionRow {
    pub order_no: FieldValue,
    pub qty: FieldValue,
    pub priced: bool,
}

impl ExecutionRow {
    /// The row is about an order.
    pub open spec fn concerns(self, order_no: Seq<char>) -> bool {
        match self.order_no.words() {
            Some(no) => no == order_no,
            None => order_no.len() == 0,
        }
    }

    /// How much the row says was filled; what cannot be read counts as nothing.
    pub open spec fn filled(self) -> u64 {
        match self.qty.words() {
            Some(q) => match unsigned_value(q, u64::MAX as int) {
                Some(v) => v as u64,
                None => 0,
            },
            None => 0,
        }
    }

    /// Whether the row is about an order, and how much it says was filled.
    fn read(&self, order_no: &str) -> (r: (bool, u64))
        ensures
            r == (self.concerns(order_no@), self.filled()),
    {
        let about: bool = match self.order_no.as_text() {
            Some(no) => same_text(no.as_str(), order_no),
            None => order_no.unicode_len() == 0,
        };
        let qty: u64 = match self.qty.as_text() {
            Some(q) => match parse_u64(q.as_str()) {
                Some(v) => v,
                None => 0,
            },
            None => 0,
        };
        (about, qty)
    }
}

/// What the execution list adds up to for one order.
#[derive(Debug, Clone, Copy, PartialEq, Eq, Structural)]
pub struct ExecutionTally {
    /// The rows of the order.
    pub matched_rows: usize,
    /// What they say was filled.
    pub matched_qty: u64,
    /// The part of it that has a price.
    pub priced_qty: u64,
}

/// A sum that stays at the largest number.
pub open spec fn capped(a: u64, b: u64) -> u64 {
    if a + b > u64::MAX {
        u64::MAX
    } else {
        (a + b) as u64
    }
}

impl ExecutionTally {
    /// With one more row.
    pub open spec fn with_row(self, row: ExecutionRow, order_no: Seq<char>) -> ExecutionTally {
        if !row.concerns(order_no) {
            self
        } else {
            ExecutionTally {
                matched_rows: (self.matched_rows + 1) as usize,
                matched_qty: capped(self.matched_qty, row.filled()),
                priced_qty: if row.filled() > 0 && row.priced {
                    capped(self.priced_qty, row.filled())
                } else {
                    self.priced_qty
                },
            }
        }
    }

    /// What the rows add up to.
    pub open spec fn of_rows(rows: Seq<ExecutionRow>, order_no: Seq<char>) -> ExecutionTally
        decreases rows.len(),
    {
        if rows.len() == 0 {
            ExecutionTally { matched_rows: 0, matched_qty: 0, priced_qty: 0 }
        } else {
            ExecutionTally::of_rows(rows.drop_last(), order_no).with_row(rows.last(), order_no)
        }
    }

    /// What the rows add up to.
    pub fn of(rows: &Vec<ExecutionRow>, order_no: &str) -> (r: ExecutionTally)
        ensures
            r == ExecutionTally::of_rows(rows@, order_no@),
    {
        let mut t = ExecutionTally { matched_rows: 0, matched_qty: 0, priced_qty: 0 };
        let mut i: usize = 0;
        while i < rows.len()
            invariant
                i <= rows.len(),
                t == ExecutionTally::of_rows(rows@.take(i as int), order_no@),
                t.matched_rows <= i,
            decreases rows.len() - i,
        {
            let row: &ExecutionRow = &rows[i];
            proof {
                assert(rows@.take(i + 1).drop_last() =~= rows@.take(i as int));
            }
            let (about, qty): (bool, u64) = row.read(order_no);
            if about {
                t.matched_rows = t.matched_rows + 1;
                t.matched_qty = t.matched_qty.saturating_add(qty);
                if qty > 0 && row.priced {
                    t.priced_qty = t.priced_qty.saturating_add(qty);
                }
            }
            i = i + 1;
        }
        proof {
            assert(rows@.take(i as int) =~= rows@);
        }
        t
    }

    /// What is known of the order.
    pub open spec fn status_words(self) -> Seq<char> {
        if self.matched_rows == 0 {
            "order_not_found"@
        } else if self.matched_qty == 0 {
            "matched_zero_qty"@
        } else if self.priced_qty == 0 {
            "matched_no_price"@
        } else if self.priced_qty == self.matched_qty {
            "filled"@
        } else {
            "filled_partial_price"@
        }
    }

    /// The order was filled at a price that is known.
    pub open spec fn has_fill(self) -> bool {
        self.matched_rows > 0 && self.matched_qty > 0 && self.priced_qty > 0
    }

    /// What is known of the order.
    pub fn status(&self) -> (r: &'static str)
        ensures
            r@ == self.status_words(),
    {
        if self.matched_rows == 0 {
            "order_not_found"
        } else if self.matched_qty == 0 {
            "matched_zero_qty"
        } else if self.priced_qty == 0 {
            "matched_no_price"
        } else if self.priced_qty == self.matched_qty {
            "filled"
        } else {
            "filled_partial_price"
        }
    }
}

/// The places of the rows that an average price is made of, with their quantities.
pub fn priced_rows(rows: &Vec<ExecutionRow>, order_no: &str) -> (r: Vec<(usize, u64)>)
    ensures
        forall|k: int|
            0 <= k < r@.len() ==> {
                let (i, qty) = #[trigger] r@[k];
                i < rows@.len() && makes_price(rows@[i as int], order_no@) && qty
                    == rows@[i as int].filled()
            },
        forall|i: int|
            0 <= i < rows@.len() && makes_price(#[trigger] rows@[i], order_no@) ==> exists|k: int|
                0 <= k < r@.len() && #[trigger] r@[k] == (i as usize, rows@[i].filled()),
        forall|j: int, k: int|
            0 <= j < k < r@.len() ==> (#[trigger] r@[j]).0 < (#[trigger] r@[k]).0,
{
    let mut out: Vec<(usize, u64)> = Vec::new();
    let mut i: usize = 0;
    while i < rows.len()
        invariant
            i <= rows.len(),
            forall|k: int|
                0 <= k < out@.len() ==> {
                    let (p, qty) = #[trigger] out@[k];
                    p < i && makes_price(rows@[p as int], order_no@) && qty
                        == rows@[p as int].filled()
                },
            forall|p: int|
                0 <= p < i && makes_price(#[trigger] rows@[p], order_no@) ==> exists|k: int|
                    0 <= k < out@.len() && #[trigger] out@[k] == (p as usize, rows@[p].filled()),
            forall|j: int, k: int|
                0 <= j < k < out@.len() ==> (#[trigger] out@[j]).0 < (#[trigger] out@[k]).0,
        decreases rows.len() - i,
    {
        let row: &ExecutionRow = &rows[i];
        let (about, qty): (bool, u64) = row.read(order_no);
        let ghost before = out@;
        if about && qty > 0 && row.priced {
            out.push((i, qty));
            assert(out@[before.len() as int] == (i, qty));
        }
        assert forall|p: int|
            0 <= p < i + 1 && makes_price(#[trigger] rows@[p], order_no@) implies exists|k: int|
            0 <= k < out@.len() && #[trigger] out@[k] == (p as usize, rows@[p].filled()) by {
            if p < i {
                let k = choose|k: int|
                    0 <= k < before.len() && #[trigger] before[k] == (p as usize, rows@[p].filled());
                assert(out@[k] == before[k]);
            } else {
                assert(out@[before.len() as int] == (p as usize, rows@[p].filled()));
            }
        }
        i = i + 1;
    }
    out
}

/// The row counts towards an order's average price.
pub open spec fn makes_price(row: ExecutionRow, order_no: Seq<char>) -> bool {
    row.concerns(order_no) && row.filled() > 0 && row.priced
}

/// What one look at the execution list came to.
#[derive(Debug, Clone)]
pub struct ExecutionQueryOutcome {
    pub fill: Option<Fill>,
    pub diagnostics: ExecutionQueryDiagnostics,
}

/// A look at the execution list that came to nothing, for a stated reason.
pub fn query_failed(
    order_no: &str,
    phase: &str,
    attempt: u32,
    status: &str,
    error: Option<String>,
) -> (r: ExecutionQueryOutcome)
    ensures
        r.fill is None,
        r.diagnostics.phase@ == phase@,
        r.diagnostics.attempt == attempt,
        r.diagnostics.order_no@ == order_no@,
        r.diagnostics.status@ == status@,
        r.diagnostics.output_rows == 0,
        r.diagnostics.matched_rows == 0,
        r.diagnostics.matched_qty == 0,
        r.diagnostics.priced_qty == 0,
        r.diagnostics.avg_price is None,
        r.diagnostics.error == error,
{
    ExecutionQueryOutcome {
        fill: None,
        diagnostics: ExecutionQueryDiagnostics {
            phase: phase.to_owned(),
            attempt,
            order_no: order_no.to_owned(),
            status: status.to_owned(),
            output_rows: 0,
            matched_rows: 0,
            matched_qty: 0,
            priced_qty: 0,
            avg_price: None,
            error,
        },
    }
}

/// Makes out what the execution list says of an order.  `avg_price` is the average over the rows
/// that have a price, and is not looked at where there is none.
pub fn parse_execution_query_items(
    order_no: &str,
    phase: &str,
    attempt: u32,
    items: &Vec<ExecutionRow>,
    avg_price: i64,
) -> (r: ExecutionQueryOutcome)
    ensures
        ({
            let t = ExecutionTally::of_rows(items@, order_no@);
            &&& r.fill == (if t.has_fill() {
                Some(Fill { price: avg_price, qty: t.matched_qty })
            } else {
                None
            })
            &&& r.diagnostics.phase@ == phase@
            &&& r.diagnostics.attempt == attempt
            &&& r.diagnostics.order_no@ == order_no@
            &&& r.diagnostics.status@ == t.status_words()
            &&& r.diagnostics.output_rows == items@.len()
            &&& r.diagnostics.matched_rows == t.matched_rows
            &&& r.diagnostics.matched_qty == t.matched_qty
            &&& r.diagnostics.priced_qty == t.priced_qty
            &&& r.diagnostics.avg_price == (if t.has_fill() {
                Some(avg_price)
            } else {
                None
            })
            &&& r.diagnostics.error is None
        }),
{
    let t: ExecutionTally = ExecutionTally::of(items, order_no);
    let filled: bool = t.matched_rows > 0 && t.matched_qty > 0 && t.priced_qty > 0;
    ExecutionQueryOutcome {
        fill: if filled {
            Some(Fill { price: avg_price, qty: t.matched_qty })
        } else {
            None
        },
        diagnostics: ExecutionQueryDiagnostics {
            phase: phase.to_owned(),
            attempt,
            order_no: order_no.to_owned(),
            status: t.status().to_owned(),
            output_rows: items.len(),
            matched_rows: t.matched_rows,
            matched_qty: t.matched_qty,
            priced_qty: t.priced_qty,
            avg_price: if filled {
                Some(avg_price)
            } else {
                None
            },
            error: None,
        },
    }
}

/// What has a price was filled: the priced part never exceeds the whole.
pub proof fn priced_part_is_filled(rows: Seq<ExecutionRow>, order_no: Seq<char>)
    ensures
        ExecutionTally::of_rows(rows, order_no).priced_qty <= ExecutionTally::of_rows(
            rows,
            order_no,
        ).matched_qty,
    decreases rows.len(),
{
    if rows.len() > 0 {
        priced_part_is_filled(rows.drop_last(), order_no);
    }
}

/// A fill notice.
#[derive(Debug, Clone)]
pub struct ExecutionNotice {
    pub order_no: String,
    pub is_filled: bool,
    pub filled_price: i64,
    pub filled_qty: u64,
}

/// The fill that a notice reports of an order, if it reports one.
pub fn notice_fill(notice: &ExecutionNotice, order_no: &str) -> (r: Option<Fill>)
    ensures
        r == (if notice.order_no@ == order_no@ && notice.is_filled && notice.filled_price > 0 {
            Some(Fill { price: notice.filled_price, qty: notice.filled_qty })
        } else {
            None
        }),
{
    if same_text(notice.order_no.as_str(), order_no) && notice.is_filled && notice.filled_price
        > 0 {
        Some(Fill { price: notice.filled_price, qty: notice.filled_qty })
    } else {
        None
    }
}

/// How long a fill notice is waited for.
pub const FILL_NOTICE_MS: u64 = 5_000;

/// How often the execution list is asked in a row.
pub const FILL_QUERIES: u32 = 5;

/// The pause between two questions to the execution list.
pub const FILL_QUERY_PAUSE_MS: u64 = 2_000;

/// The pause before the last question.
pub const FILL_LAST_PAUSE_MS: u64 = 5_000;

/// Where the search for a fill stands.
#[derive(Debug, Clone, Copy, PartialEq, Eq, Structural)]
pub enum FillStage {
    Notice,
    Query(u32),
    LastQuery,
    Done(Option<Fill>),
}

/// What the search for a fill does next.
#[derive(Debug, Clone, Copy, PartialEq, Eq, Structural)]
pub enum FillRequest {
    AwaitNotice { timeout_ms: u64 },
    QueryExecution { after_ms: u64 },
    Finished(Option<Fill>),
}

/// The search for the fill of an order: a notice first, then the execution list.
#[derive(Debug, Clone, Copy, PartialEq, Eq, Structural)]
pub struct FillSearch {
    pub stage: FillStage,
}

impl FillSearch {
    /// The question that is asked next is one of the planned ones.
    pub open spec fn valid(self) -> bool {
        self.stage matches FillStage::Query(n) ==> n < FILL_QUERIES
    }

    /// What a reply leads to.
    pub open spec fn next(self, fill: Option<Fill>) -> FillSearch {
        FillSearch {
            stage: match (self.stage, fill) {
                (FillStage::Done(_), _) => self.stage,
                (_, Some(f)) => FillStage::Done(Some(f)),
                (FillStage::Notice, None) => FillStage::Query(0),
                (FillStage::Query(n), None) => if n + 1 < FILL_QUERIES {
                    FillStage::Query((n + 1) as u32)
                } else {
                    FillStage::LastQuery
                },
                (FillStage::LastQuery, None) => FillStage::Done(None),
            },
        }
    }

    /// How many replies can still come.
    pub open spec fn replies_left(self) -> int {
        match self.stage {
            FillStage::Notice => FILL_QUERIES + 2,
            FillStage::Query(n) => FILL_QUERIES + 1 - n,
            FillStage::LastQuery => 1,
            FillStage::Done(_) => 0,
        }
    }

    /// What is done at a stage.
    pub open spec fn wanted(self) -> FillRequest {
        match self.stage {
            FillStage::Notice => FillRequest::AwaitNotice { timeout_ms: FILL_NOTICE_MS },
            FillStage::Query(n) => FillRequest::QueryExecution {
                after_ms: if n == 0 {
                    0
                } else {
                    FILL_QUERY_PAUSE_MS
                },
            },
            FillStage::LastQuery => FillRequest::QueryExecution { after_ms: FILL_LAST_PAUSE_MS },
            FillStage::Done(fill) => FillRequest::Finished(fill),
        }
    }

    /// A new search.  Without a feed no notice can come.
    pub fn begin(has_feed: bool) -> (r: FillSearch)
        ensures
            r.stage == (if has_feed {
                FillStage::Notice
            } else {
                FillStage::Query(0)
            }),
            r.valid(),
    {
        FillSearch {
            stage: if has_feed {
                FillStage::Notice
            } else {
                FillStage::Query(0)
            },
        }
    }

    /// What is done next.
    pub fn request(&self) -> (r: FillRequest)
        ensures
            r == self.wanted(),
    {
        match self.stage {
            FillStage::Notice => FillRequest::AwaitNotice { timeout_ms: FILL_NOTICE_MS },
            FillStage::Query(n) => FillRequest::QueryExecution {
                after_ms: if n == 0 {
                    0
                } else {
                    FILL_QUERY_PAUSE_MS
                },
            },
            FillStage::LastQuery => FillRequest::QueryExecution { after_ms: FILL_LAST_PAUSE_MS },
            FillStage::Done(fill) => FillRequest::Finished(fill),
        }
    }

    /// Takes in what came back.
    pub fn step(&mut self, fill: Option<Fill>)
        requires
            old(self).valid(),
        ensures
            *final(self) == old(self).next(fill),
            final(self).valid(),
            !(old(self).stage is Done) ==> final(self).replies_left() < old(self).replies_left(),
    {
        match (self.stage, fill) {
            (FillStage::Done(_), _) => {},
            (_, Some(f)) => {
                self.stage = FillStage::Done(Some(f));
            },
            (FillStage::Notice, None) => {
                self.stage = FillStage::Query(0);
            },
            (FillStage::Query(n), None) => {
                self.stage =
                if n + 1 < FILL_QUERIES {
                    FillStage::Query(n + 1)
                } else {
                    FillStage::LastQuery
                };
            },
            (FillStage::LastQuery, None) => {
                self.stage = FillStage::Done(None);
            },
        }
    }
}

/// The pause after an attempt to cancel an order or to save a record that failed: half a second,
/// then twice as long.  `None`: it was the third, and the last.
pub fn pause_after_attempt(attempt: u32) -> (r: Option<u64>)
    ensures
        r == (match attempt {
            0 => Some(500u64),
            1 => Some(1_000u64),
            _ => None,
        }),
{
    match attempt {
        0 => Some(500),
        1 => Some(1_000),
        _ => None,
    }
}

/// A row of the balance is about a stock where it names it, tells the quantity that it can be read
/// to tell, and an average price where that is positive.
pub proof fn balance_rows_tell_this(row: HoldingRow, code: Seq<char>)
    ensures
        row.code matches Some(c) ==> (row.concerns(code) <==> c@ == code),
        row.code is None ==> (row.concerns(code) <==> code == Seq::<char>::empty()),
        row.qty is None ==> row.held() == 0,
        row.qty matches Some(q) ==> match unsigned_value(q@, 0xffff_ffff_ffff_ffff) {
            Some(v) => 0 <= v <= 0xffff_ffff_ffff_ffff ==> row.held() == v,
            None => row.held() == 0,
        },
        row.avg matches Some(a) ==> row.average() == (if a >= 1 {
            Some(a)
        } else {
            None
        }),
        row.avg is None ==> row.average() is None,
{
    if row.code is None {
        assert(code.len() == 0 <==> code =~= Seq::<char>::empty());
    }
}

/// The first row of the balance that is about the stock and tells a quantity is the one that counts,
/// with its own quantity and price.
pub proof fn first_telling_row_counts(rows: Seq<HoldingRow>, code: Seq<char>, i: int)
    requires
        0 <= i < rows.len(),
        rows[i].concerns(code),
        rows[i].held() > 0,
        forall|j: int|
            0 <= j < i ==> !((#[trigger] rows[j]).concerns(code) && rows[j].held() > 0),
    ensures
        holding_in(rows, code) == Some((rows[i].held(), rows[i].average())),
    decreases i,
{
    if i > 0 {
        let rest = rows.drop_first();
        assert(rest[i - 1] == rows[i]);
        assert forall|j: int| 0 <= j < i - 1 implies !((#[trigger] rest[j]).concerns(code)
            && rest[j].held() > 0) by {
            assert(rest[j] == rows[j + 1]);
        }
        assert(!(rows[0].concerns(code) && rows[0].held() > 0));
        first_telling_row_counts(rest, code, i - 1);
    }
}

/// An order can be cancelled where it is one of the stock and has a number; and so many can be as
/// there are such rows.
pub proof fn own_numbered_orders_are_cancelled(rows: Seq<PendingRow>, code: Seq<char>)
    ensures
        cancellable_before(rows, code, rows.len() as int) == rows.filter(
            |row: PendingRow|
                {
                    let own = match row.code {
                        Some(c) => c@ == code,
                        None => code.len() == 0,
                    };
                    own && row.order_no is Some && row.order_no->0@.len() != 0
                },
        ).len(),
    decreases rows.len(),
{
    reveal(Seq::filter);
    if rows.len() > 0 {
        let n = rows.len() as int;
        own_numbered_orders_are_cancelled(rows.drop_last(), code);
        counted_before_the_end(rows, code, n - 1);
        assert(rows.last() == rows[n - 1]);
    }
}

proof fn counted_before_the_end(rows: Seq<PendingRow>, code: Seq<char>, i: int)
    requires
        0 <= i < rows.len(),
    ensures
        cancellable_before(rows, code, i) == cancellable_before(rows.drop_last(), code, i),
    decreases i,
{
    if i > 0 {
        counted_before_the_end(rows, code, i - 1);
        assert(rows.drop_last()[i - 1] == rows[i - 1]);
    }
}

/// A value is read as it is written: a text without space around it, a number in decimal, and what
/// is missing not at all.
pub proof fn values_are_read_as_written(n: i64, m: u64, t: String)
    ensures
        (FieldValue::Text(t)).words() == Some(trimmed(t@)),
        (FieldValue::Fraction(t)).words() == Some(t@),
        (FieldValue::Signed(n)).words() is Some,
        signed_value((FieldValue::Signed(n)).words()->0) == Some(n as int),
        (FieldValue::Unsigned(m)).words() is Some,
        unsigned_value((FieldValue::Unsigned(m)).words()->0, 0xffff_ffff_ffff_ffff) == Some(
            m as int,
        ),
        FieldValue::Missing.words() is None,
        FieldValue::Other.words() is None,
{
    crate::text::decimal_reads_back(n);
    crate::text::unsigned_reads_back(m as int, 0xffff_ffff_ffff_ffff);
}

/// A row of the execution list is about an order where it names it, and tells the quantity that it
/// can be read to tell.
pub proof fn execution_rows_tell_this(row: ExecutionRow, order_no: Seq<char>)
    ensures
        row.order_no.words() matches Some(no) ==> (row.concerns(order_no) <==> no == order_no),
        row.order_no.words() is None ==> (row.concerns(order_no) <==> order_no.len() == 0),
        row.qty.words() is None ==> row.filled() == 0,
        row.qty.words() matches Some(q) ==> match unsigned_value(q, 0xffff_ffff_ffff_ffff) {
            Some(v) => 0 <= v <= 0xffff_ffff_ffff_ffff ==> row.filled() == v,
            None => row.filled() == 0,
        },
        makes_price(row, order_no) <==> row.priced && row.filled() != 0 && row.concerns(order_no),
{
}

/// What the rows of an order say was filled, added up; only those with a price where `priced`.
pub open spec fn filled_sum(rows: Seq<ExecutionRow>, order_no: Seq<char>, priced: bool) -> int
    decreases rows.len(),
{
    if rows.len() == 0 {
        0
    } else {
        let row = rows.last();
        filled_sum(rows.drop_last(), order_no, priced) + if row.concerns(order_no) && (!priced
            || row.priced) {
            row.filled() as int
        } else {
            0
        }
    }
}

/// The rows of an order are counted and what they say was filled is added up, with and without
/// those that have no price; the sums stay at the largest number that there is room for.
pub proof fn tallies_add_up(rows: Seq<ExecutionRow>, order_no: Seq<char>)
    requires
        rows.len() <= usize::MAX,
    ensures
        ({
            let t = ExecutionTally::of_rows(rows, order_no);
            let most: int = 0xffff_ffff_ffff_ffff;
            let whole = filled_sum(rows, order_no, false);
            let part = filled_sum(rows, order_no, true);
            &&& t.matched_rows == rows.filter(|r: ExecutionRow| r.concerns(order_no)).len()
            &&& t.matched_rows <= rows.len()
            &&& 0 <= part <= whole
            &&& t.matched_qty == (if whole <= most {
                whole
            } else {
                most
            })
            &&& t.priced_qty == (if part <= most {
                part
            } else {
                most
            })
        }),
    decreases rows.len(),
{
    reveal(Seq::filter);
    if rows.len() > 0 {
        tallies_add_up(rows.drop_last(), order_no);
    }
}

/// An order was filled at a known price where a priced quantity was found, and what is told of it
/// goes by what was found.
pub proof fn tallies_tell_this(t: ExecutionTally)
    requires
        t.priced_qty <= t.matched_qty,
        t.matched_rows == 0 ==> t.matched_qty == 0,
    ensures
        t.has_fill() <==> t.priced_qty > 0,
        t.matched_rows == 0 ==> t.status_words() == "order_not_found"@,
        t.matched_rows > 0 && t.matched_qty == 0 ==> t.status_words() == "matched_zero_qty"@,
        t.matched_qty > 0 && t.priced_qty == 0 ==> t.status_words() == "matched_no_price"@,
        t.matched_qty > 0 && t.priced_qty == t.matched_qty ==> t.status_words() == "filled"@,
        0 < t.priced_qty < t.matched_qty ==> t.status_words() == "filled_partial_price"@,
{
}

/// A search for a fill after so many replies without one.
pub open spec fn searched_in_vain(search: FillSearch, n: nat) -> FillSearch
    decreases n,
{
    if n == 0 {
        search
    } else {
        searched_in_vain(search, (n - 1) as nat).next(None)
    }
}

/// A search asks the execution list five times, at once and then two seconds apart, and once more
/// five seconds later; with a feed it waits five seconds for a notice before.  Then it ends without
/// a fill.
pub proof fn searches_ask_six_times(n: nat)
    ensures
        ({
            let asked = searched_in_vain(FillSearch { stage: FillStage::Query(0) }, n).wanted();
            let with_feed = FillSearch { stage: FillStage::Notice };
            &&& with_feed.wanted() == (FillRequest::AwaitNotice { timeout_ms: 5_000 })
            &&& searched_in_vain(with_feed, n + 1).wanted() == asked
            &&& n == 0 ==> asked == (FillRequest::QueryExecution { after_ms: 0 })
            &&& 1 <= n <= 4 ==> asked == (FillRequest::QueryExecution { after_ms: 2_000 })
            &&& n == 5 ==> asked == (FillRequest::QueryExecution { after_ms: 5_000 })
            &&& n >= 6 ==> asked == FillRequest::Finished(None)
        }),
{
    in_vain_after(n);
}

proof fn in_vain_after(n: nat)
    ensures
        searched_in_vain(FillSearch { stage: FillStage::Query(0) }, n).stage == (if n <= 4 {
            FillStage::Query(n as u32)
        } else if n == 5 {
            FillStage::LastQuery
        } else {
            FillStage::Done(None)
        }),
        searched_in_vain(FillSearch { stage: FillStage::Notice }, n + 1) == searched_in_vain(
            FillSearch { stage: FillStage::Query(0) },
            n,
        ),
    decreases n,
{
    if n > 0 {
        in_vain_after((n - 1) as nat);
    } else {
        let start = FillSearch { stage: FillStage::Notice };
        assert(searched_in_vain(start, 0) == start);
        assert(searched_in_vain(start, 1) == start.next(None));
    }
}

/// Whatever is found first ends the search, and stays found.
pub proof fn first_fill_ends_the_search(search: FillSearch, f: Fill, later: Option<Fill>)
    requires
        !(search.stage is Done),
    ensures
        search.next(Some(f)).wanted() == FillRequest::Finished(Some(f)),
        search.next(Some(f)).next(later).wanted() == FillRequest::Finished(Some(f)),
{
}

/// A fill needs a row of the order, a quantity and a price: where one is missing there is none.
pub proof fn fills_need_row_quantity_and_price(t: ExecutionTally)
    ensures
        t.matched_rows == 0 || t.matched_qty == 0 || t.priced_qty == 0 ==> !t.has_fill(),
        t.matched_rows > 0 && t.matched_qty > 0 && t.priced_qty > 0 ==> t.has_fill(),
{
}

} // verus!
