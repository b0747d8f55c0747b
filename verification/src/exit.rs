//! Verifying that a position was really sold.
//!
//! A fill notice, the broker's execution list and the account balance are consulted in that
//! order.  Only the balance decides whether anything is left.

use crate::types::{Fill, HoldingReply};
use vstd::prelude::*;

verus! {

/// How the fill of an exit was established.
#[derive(Debug, Clone, Copy, PartialEq, Eq, Structural)]
pub enum ExitResolutionSource {
    /// A fill notice gave the price.
    WsNotice,
    /// The execution list gave the price.
    RestExecution,
    /// Only the balance shows that something was sold; the price is not known.
    BalanceOnly,
    /// Nothing established the fill.
    Unresolved,
    /// The take-profit order was matched by the exchange.
    TpLimit,
}

/// How the exit of a trade was recorded.
#[derive(Debug, Clone)]
pub struct ExitTraceMeta {
    /// The exit price is a stand-in: the real fill price is not known.
    pub fill_price_unknown: bool,
    /// The name of the way in which the fill was established.
    pub exit_resolution_source: String,
}

/// What one look at the broker's execution list came to.
#[derive(Debug, Clone)]
pub struct ExecutionQueryDiagnostics {
    pub phase: String,
    pub attempt: u32,
    pub order_no: String,
    pub status: String,
    pub output_rows: usize,
    pub matched_rows: usize,
    pub matched_qty: u64,
    pub priced_qty: u64,
    pub avg_price: Option<i64>,
    pub error: Option<String>,
}

/// The outcome of verifying an exit.
#[derive(Debug, Clone)]
pub struct ExitVerification {
    /// The quantity that is known to be sold.
    pub filled_qty: u64,
    /// The fill price, where it is known.
    pub filled_price: Option<i64>,
    /// The balance after the exit.  `None` means that the balance could not be read.
    pub holdings_after: Option<u64>,
    /// How the fill was established.
    pub resolution_source: ExitResolutionSource,
    /// A fill notice came in.
    pub ws_received: bool,
    /// What each look at the execution list came to.
    pub rest_execution_attempts: Vec<ExecutionQueryDiagnostics>,
}

impl ExitResolutionSource {
    /// The name under which a source is stored.
    pub open spec fn name(self) -> Seq<char> {
        match self {
            ExitResolutionSource::WsNotice => "ws_notice"@,
            ExitResolutionSource::RestExecution => "rest_execution"@,
            ExitResolutionSource::BalanceOnly => "balance_only"@,
            ExitResolutionSource::Unresolved => "unresolved"@,
            ExitResolutionSource::TpLimit => "tp_limit"@,
        }
    }

    /// The name under which a source is stored.
    pub fn label(self) -> (r: &'static str)
        ensures
            r@ == self.name(),
    {
        match self {
            ExitResolutionSource::WsNotice => "ws_notice",
            ExitResolutionSource::RestExecution => "rest_execution",
            ExitResolutionSource::BalanceOnly => "balance_only",
            ExitResolutionSource::Unresolved => "unresolved",
            ExitResolutionSource::TpLimit => "tp_limit",
        }
    }
}

/// Two sources with the same name are the same source.
pub proof fn source_names_are_distinct(a: ExitResolutionSource, b: ExitResolutionSource)
    requires
        a.name() == b.name(),
    ensures
        a == b,
{
    reveal_strlit("ws_notice");
    reveal_strlit("rest_execution");
    reveal_strlit("balance_only");
    reveal_strlit("unresolved");
    reveal_strlit("tp_limit");
    assert("ws_notice"@.len() == 9 && "rest_execution"@.len() == 14);
    assert("balance_only"@.len() == 12 && "unresolved"@.len() == 10 && "tp_limit"@.len() == 8);
}

impl Default for ExitTraceMeta {
    fn default() -> (r: Self)
        ensures
            !r.fill_price_unknown,
            r.exit_resolution_source@ == Seq::<char>::empty(),
    {
        ExitTraceMeta { fill_price_unknown: false, exit_resolution_source: String::new() }
    }
}

impl ExitTraceMeta {
    /// The take-profit order was filled.
    pub fn tp_limit() -> (r: Self)
        ensures
            !r.fill_price_unknown,
            r.exit_resolution_source@ == ExitResolutionSource::TpLimit.name(),
    {
        ExitTraceMeta {
            fill_price_unknown: false,
            exit_resolution_source: ExitResolutionSource::TpLimit.label().to_owned(),
        }
    }

    /// The fill price is known.
    pub fn resolved(source: ExitResolutionSource) -> (r: Self)
        ensures
            !r.fill_price_unknown,
            r.exit_resolution_source@ == source.name(),
    {
        ExitTraceMeta {
            fill_price_unknown: false,
            exit_resolution_source: source.label().to_owned(),
        }
    }

    /// How an exit was established, and whether its price is known.
    pub fn of(price_unknown: bool, source: ExitResolutionSource) -> (r: Self)
        ensures
            r.fill_price_unknown == price_unknown,
            r.exit_resolution_source@ == source.name(),
    {
        if price_unknown {
            ExitTraceMeta::price_unknown(source)
        } else {
            ExitTraceMeta::resolved(source)
        }
    }

    /// Nothing is left, but the fill price is not known.
    pub fn price_unknown(source: ExitResolutionSource) -> (r: Self)
        ensures
            r.fill_price_unknown,
            r.exit_resolution_source@ == source.name(),
    {
        ExitTraceMeta {
            fill_price_unknown: true,
            exit_resolution_source: source.label().to_owned(),
        }
    }
}

impl ExitVerification {
    /// The balance was read and nothing is left.
    pub open spec fn flat_confirmed(self) -> bool {
        self.holdings_after == Some(0u64)
    }

    /// Whether the position may be taken as closed: the balance was read and nothing is left.
    pub fn can_flat(&self) -> (r: bool)
        ensures
            r == self.flat_confirmed(),
    {
        matches!(self.holdings_after, Some(0))
    }

    /// Whether something may be left.  A balance that could not be read counts as something left.
    pub fn has_remaining(&self) -> (r: bool)
        ensures
            r == !self.flat_confirmed(),
    {
        match self.holdings_after {
            Some(0) => false,
            Some(_) => true,
            None => true,
        }
    }

    /// The status of the last look at the execution list.
    pub fn rest_execution_last_status(&self) -> (r: Option<&str>)
        ensures
            match r {
                Some(status) => self.rest_execution_attempts@.len() > 0 && status@
                    == self.rest_execution_attempts@.last().status@,
                None => self.rest_execution_attempts@.len() == 0,
            },
    {
        let n: usize = self.rest_execution_attempts.len();
        if n == 0 {
            None
        } else {
            Some(self.rest_execution_attempts[n - 1].status.as_str())
        }
    }
}

/// What is consulted next.
#[derive(Debug, Clone, Copy, PartialEq, Eq, Structural)]
pub enum VerifyStage {
    /// Wait for a fill notice.
    Notice,
    /// Look at the execution list; so many looks were taken before.
    Executions(u32),
    /// Read the balance; so many readings were taken before.
    Balance(u32),
    /// Nothing is left but the price is missing: look at the execution list again.
    LateExecutions(u32),
    /// Everything was consulted.
    Done,
}

/// A reply to what was consulted.
#[derive(Debug, Clone, Copy, PartialEq, Eq, Structural)]
pub enum VerifyReply {
    Notice(Option<Fill>),
    Executions(Option<Fill>),
    Balance(HoldingReply),
}

impl VerifyReply {
    /// The reply shows the account to hold exactly `qty`.
    pub open spec fn shows(self, qty: u64) -> bool {
        self matches VerifyReply::Balance(b) && b.quantity() == Some(qty)
    }
}

/// Verifying one exit order.
#[derive(Debug, Clone, Copy, PartialEq, Eq, Structural)]
pub struct VerifyFlow {
    /// The broker gave the order a number, so it can be asked about.
    pub has_order_no: bool,
    /// The quantity that was ordered.
    pub expected_qty: u64,
    /// The balance before the order.
    pub holding_before: u64,
    /// How often the execution list is looked at in a row.
    pub rest_retries: u32,
    /// How often the balance is read.
    pub balance_retries: u32,
    pub stage: VerifyStage,
    pub filled_qty: u64,
    pub filled_price: Option<i64>,
    pub source: ExitResolutionSource,
    pub ws_received: bool,
    pub holdings_after: Option<u64>,
}

/// The outcome of a verification, without the record of how it was reached.
#[derive(Debug, Clone, Copy, PartialEq, Eq, Structural)]
pub struct VerifySummary {
    pub filled_qty: u64,
    pub filled_price: Option<i64>,
    pub holdings_after: Option<u64>,
    pub source: ExitResolutionSource,
}

impl VerifyFlow {
    /// Room for every retry.
    pub open spec fn valid(self) -> bool {
        &&& 1 <= self.rest_retries <= 10
        &&& 1 <= self.balance_retries <= 10
        &&& match self.stage {
            VerifyStage::Executions(n) => n < self.rest_retries,
            VerifyStage::LateExecutions(n) => n < self.rest_retries,
            VerifyStage::Balance(n) => n < self.balance_retries,
            _ => true,
        }
    }

    /// `reply` answers what is consulted at this stage.
    pub open spec fn awaits(self, reply: VerifyReply) -> bool {
        match self.stage {
            VerifyStage::Notice => reply is Notice,
            VerifyStage::Executions(_) => reply is Executions,
            VerifyStage::LateExecutions(_) => reply is Executions,
            VerifyStage::Balance(_) => reply is Balance,
            VerifyStage::Done => false,
        }
    }

    /// How many replies can still be asked for.
    pub open spec fn replies_left(self) -> int {
        let r = self.rest_retries as int;
        let b = self.balance_retries as int;
        match self.stage {
            VerifyStage::Notice => 1 + r + b + r,
            VerifyStage::Executions(n) => (r - n) + b + r,
            VerifyStage::Balance(n) => (b - n) + r,
            VerifyStage::LateExecutions(n) => r - n,
            VerifyStage::Done => 0,
        }
    }

    pub open spec fn at(self, stage: VerifyStage) -> VerifyFlow {
        VerifyFlow { stage, ..self }
    }

    /// The start of a verification.  Without an order number only the balance can be consulted.
    pub open spec fn begun(
        has_order_no: bool,
        expected_qty: u64,
        holding_before: u64,
        rest_retries: u32,
        balance_retries: u32,
    ) -> VerifyFlow {
        VerifyFlow {
            has_order_no,
            expected_qty,
            holding_before,
            rest_retries,
            balance_retries,
            stage: if has_order_no {
                VerifyStage::Notice
            } else {
                VerifyStage::Balance(0)
            },
            filled_qty: 0,
            filled_price: None,
            source: ExitResolutionSource::Unresolved,
            ws_received: false,
            holdings_after: None,
        }
    }

    /// With a fill notice taken in.
    pub open spec fn noticed(self, fill: Fill) -> VerifyFlow {
        VerifyFlow {
            filled_qty: fill.qty,
            filled_price: Some(fill.price),
            source: ExitResolutionSource::WsNotice,
            ws_received: true,
            ..self
        }
    }

    /// With a fill from the execution list taken in: it counts where it shows more than was known,
    /// up to what was ordered, and its price counts where none was known.
    pub open spec fn listed(self, fill: Fill) -> VerifyFlow {
        let qty = if fill.qty <= self.expected_qty {
            fill.qty
        } else {
            self.expected_qty
        };
        if qty > self.filled_qty {
            if self.filled_price is None {
                VerifyFlow {
                    filled_qty: qty,
                    filled_price: Some(fill.price),
                    source: ExitResolutionSource::RestExecution,
                    ..self
                }
            } else {
                VerifyFlow { filled_qty: qty, ..self }
            }
        } else {
            self
        }
    }

    /// With a late fill from the execution list taken in: its price counts whatever its quantity.
    pub open spec fn listed_late(self, fill: Fill) -> VerifyFlow {
        let qty = if fill.qty <= self.expected_qty {
            fill.qty
        } else {
            self.expected_qty
        };
        VerifyFlow {
            filled_qty: if qty > self.filled_qty {
                qty
            } else {
                self.filled_qty
            },
            filled_price: Some(fill.price),
            source: ExitResolutionSource::RestExecution,
            ..self
        }
    }

    /// With the balance taken in.
    pub open spec fn weighed(self, reply: HoldingReply) -> VerifyFlow {
        VerifyFlow {
            holdings_after: if reply.quantity() is Some {
                reply.quantity()
            } else {
                self.holdings_after
            },
            ..self
        }
    }

    /// Everything was consulted.  Where no fill was seen but the balance shrank, the difference
    /// counts as sold at an unknown price.
    pub open spec fn finished(self) -> VerifyFlow {
        if self.filled_price is None && self.filled_qty == 0 && self.holdings_after is Some
            && self.holdings_after->0 < self.holding_before {
            VerifyFlow {
                filled_qty: (self.holding_before - self.holdings_after->0) as u64,
                source: ExitResolutionSource::BalanceOnly,
                stage: VerifyStage::Done,
                ..self
            }
        } else {
            self.at(VerifyStage::Done)
        }
    }

    /// The balance was read for the last time.
    pub open spec fn after_balance(self) -> VerifyFlow {
        if self.filled_price is None && self.holdings_after == Some(0u64) && self.has_order_no {
            self.at(VerifyStage::LateExecutions(0))
        } else {
            self.finished()
        }
    }

    /// The verification after a reply.
    pub open spec fn next(self, reply: VerifyReply) -> VerifyFlow {
        match (self.stage, reply) {
            (VerifyStage::Notice, VerifyReply::Notice(got)) => {
                let s = if got is Some {
                    self.noticed(got->0)
                } else {
                    self
                };
                if s.filled_qty < s.expected_qty {
                    s.at(VerifyStage::Executions(0))
                } else {
                    s.at(VerifyStage::Balance(0))
                }
            },
            (VerifyStage::Executions(n), VerifyReply::Executions(got)) => {
                let s = if got is Some {
                    self.listed(got->0)
                } else {
                    self
                };
                if s.filled_qty >= s.expected_qty || n + 1 >= s.rest_retries {
                    s.at(VerifyStage::Balance(0))
                } else {
                    s.at(VerifyStage::Executions((n + 1) as u32))
                }
            },
            (VerifyStage::Balance(n), VerifyReply::Balance(got)) => {
                let s = self.weighed(got);
                if got.quantity() == Some(0u64) || n + 1 >= s.balance_retries {
                    s.after_balance()
                } else {
                    s.at(VerifyStage::Balance((n + 1) as u32))
                }
            },
            (VerifyStage::LateExecutions(n), VerifyReply::Executions(got)) => {
                if got is Some {
                    self.listed_late(got->0).finished()
                } else if n + 1 >= self.rest_retries {
                    self.finished()
                } else {
                    self.at(VerifyStage::LateExecutions((n + 1) as u32))
                }
            },
            _ => self,
        }
    }

    /// The outcome.
    pub open spec fn outcome(self) -> VerifySummary {
        VerifySummary {
            filled_qty: self.filled_qty,
            filled_price: self.filled_price,
            holdings_after: self.holdings_after,
            source: self.source,
        }
    }

    /// Starts verifying an exit order.
    pub fn begin(
        has_order_no: bool,
        expected_qty: u64,
        holding_before: u64,
        rest_retries: u32,
        balance_retries: u32,
    ) -> (r: Self)
        requires
            1 <= rest_retries <= 10,
            1 <= balance_retries <= 10,
        ensures
            r == Self::begun(
                has_order_no,
                expected_qty,
                holding_before,
                rest_retries,
                balance_retries,
            ),
            r.valid(),
    {
        VerifyFlow {
            has_order_no,
            expected_qty,
            holding_before,
            rest_retries,
            balance_retries,
            stage: if has_order_no {
                VerifyStage::Notice
            } else {
                VerifyStage::Balance(0)
            },
            filled_qty: 0,
            filled_price: None,
            source: ExitResolutionSource::Unresolved,
            ws_received: false,
            holdings_after: None,
        }
    }

    fn finish(&mut self)
        ensures
            *final(self) == old(self).finished(),
    {
        if self.filled_price.is_none() && self.filled_qty == 0 {
            if let Some(after) = self.holdings_after {
                if after < self.holding_before {
                    self.filled_qty = self.holding_before - after;
                    self.source = ExitResolutionSource::BalanceOnly;
                }
            }
        }
        self.stage = VerifyStage::Done;
    }

    fn on_notice(&mut self, got: Option<Fill>)
        requires
            old(self).valid(),
            old(self).stage is Notice,
        ensures
            *final(self) == old(self).next(VerifyReply::Notice(got)),
    {
        if let Some(fill) = got {
            self.filled_price = Some(fill.price);
            self.filled_qty = fill.qty;
            self.source = ExitResolutionSource::WsNotice;
            self.ws_received = true;
        }
        self.stage = if self.filled_qty < self.expected_qty {
            VerifyStage::Executions(0)
        } else {
            VerifyStage::Balance(0)
        };
    }

    fn on_executions(&mut self, n: u32, got: Option<Fill>)
        requires
            old(self).valid(),
            old(self).stage == VerifyStage::Executions(n),
        ensures
            *final(self) == old(self).next(VerifyReply::Executions(got)),
    {
        if let Some(fill) = got {
            let qty: u64 = if fill.qty <= self.expected_qty {
                fill.qty
            } else {
                self.expected_qty
            };
            if qty > self.filled_qty {
                self.filled_qty = qty;
                if self.filled_price.is_none() {
                    self.filled_price = Some(fill.price);
                    self.source = ExitResolutionSource::RestExecution;
                }
            }
        }
        self.stage = if self.filled_qty >= self.expected_qty || n + 1 >= self.rest_retries {
            VerifyStage::Balance(0)
        } else {
            VerifyStage::Executions(n + 1)
        };
    }

    fn on_balance(&mut self, n: u32, got: HoldingReply)
        requires
            old(self).valid(),
            old(self).stage == VerifyStage::Balance(n),
        ensures
            *final(self) == old(self).next(VerifyReply::Balance(got)),
    {
        let qty: Option<u64> = got.qty();
        if qty.is_some() {
            self.holdings_after = qty;
        }
        if matches!(qty, Some(0)) || n + 1 >= self.balance_retries {
            if self.filled_price.is_none() && matches!(self.holdings_after, Some(0))
                && self.has_order_no {
                self.stage = VerifyStage::LateExecutions(0);
            } else {
                self.finish();
            }
        } else {
            self.stage = VerifyStage::Balance(n + 1);
        }
    }

    fn on_late_executions(&mut self, n: u32, got: Option<Fill>)
        requires
            old(self).valid(),
            old(self).stage == VerifyStage::LateExecutions(n),
        ensures
            *final(self) == old(self).next(VerifyReply::Executions(got)),
    {
        match got {
            Some(fill) => {
                let qty: u64 = if fill.qty <= self.expected_qty {
                    fill.qty
                } else {
                    self.expected_qty
                };
                if qty > self.filled_qty {
                    self.filled_qty = qty;
                }
                self.filled_price = Some(fill.price);
                self.source = ExitResolutionSource::RestExecution;
                self.finish();
            },
            None => {
                if n + 1 >= self.rest_retries {
                    self.finish();
                } else {
                    self.stage = VerifyStage::LateExecutions(n + 1);
                }
            },
        }
    }

    /// Takes in the reply to what was consulted.
    pub fn step(&mut self, reply: VerifyReply)
        requires
            old(self).valid(),
            old(self).awaits(reply),
        ensures
            *final(self) == old(self).next(reply),
            final(self).valid(),
            final(self).replies_left() < old(self).replies_left(),
    {
        match (self.stage, reply) {
            (VerifyStage::Notice, VerifyReply::Notice(got)) => self.on_notice(got),
            (VerifyStage::Executions(n), VerifyReply::Executions(got)) => self.on_executions(
                n,
                got,
            ),
            (VerifyStage::Balance(n), VerifyReply::Balance(got)) => self.on_balance(n, got),
            (VerifyStage::LateExecutions(n), VerifyReply::Executions(got)) =>
                self.on_late_executions(n, got),
            _ => {},
        }
    }

    /// The outcome.
    pub fn summary(&self) -> (r: VerifySummary)
        ensures
            r == self.outcome(),
    {
        VerifySummary {
            filled_qty: self.filled_qty,
            filled_price: self.filled_price,
            holdings_after: self.holdings_after,
            source: self.source,
        }
    }

    /// The outcome, with the record of every look at the execution list.
    pub fn verification(self, attempts: Vec<ExecutionQueryDiagnostics>) -> (r: ExitVerification)
        ensures
            r.filled_qty == self.filled_qty,
            r.filled_price == self.filled_price,
            r.holdings_after == self.holdings_after,
            r.resolution_source == self.source,
            r.ws_received == self.ws_received,
            r.rest_execution_attempts == attempts,
    {
        ExitVerification {
            filled_qty: self.filled_qty,
            filled_price: self.filled_price,
            holdings_after: self.holdings_after,
            resolution_source: self.source,
            ws_received: self.ws_received,
            rest_execution_attempts: attempts,
        }
    }
}

/// A verification after several replies, in their order.
pub open spec fn verify_run(flow: VerifyFlow, replies: Seq<VerifyReply>) -> VerifyFlow
    decreases replies.len(),
{
    if replies.len() == 0 {
        flow
    } else {
        verify_run(flow, replies.drop_last()).next(replies.last())
    }
}

/// The account was seen to hold exactly `qty`.
pub open spec fn balance_showed(replies: Seq<VerifyReply>, qty: u64) -> bool {
    exists|i: int| 0 <= i < replies.len() && (#[trigger] replies[i]).shows(qty)
}

/// Whatever the replies, a verification reports a balance only where a balance enquiry showed
/// it.  In particular it reports that nothing is left only where the account was seen to hold
/// nothing.
pub proof fn reported_balance_was_seen(
    has_order_no: bool,
    expected_qty: u64,
    holding_before: u64,
    rest_retries: u32,
    balance_retries: u32,
    replies: Seq<VerifyReply>,
)
    ensures
        ({
            let flow = verify_run(
                VerifyFlow::begun(
                    has_order_no,
                    expected_qty,
                    holding_before,
                    rest_retries,
                    balance_retries,
                ),
                replies,
            );
            flow.holdings_after is Some ==> balance_showed(replies, flow.holdings_after->0)
        }),
    decreases replies.len(),
{
    if replies.len() > 0 {
        reported_balance_was_seen(
            has_order_no,
            expected_qty,
            holding_before,
            rest_retries,
            balance_retries,
            replies.drop_last(),
        );
        let before = verify_run(
            VerifyFlow::begun(
                has_order_no,
                expected_qty,
                holding_before,
                rest_retries,
                balance_retries,
            ),
            replies.drop_last(),
        );
        let last = replies[replies.len() - 1];
        assert(replies.last() == last);
        if before.next(last).holdings_after != before.holdings_after {
            assert(last is Balance);
        } else if before.holdings_after is Some {
            let i = choose|i: int|
                0 <= i < replies.drop_last().len() && (#[trigger] replies.drop_last()[i]).shows(
                    before.holdings_after->0,
                );
            assert(replies[i] == replies.drop_last()[i]);
        }
    }
}

/// A fill price is reported only with the way in which it was established, and never on the word
/// of the balance alone.
pub proof fn price_has_a_source(
    has_order_no: bool,
    expected_qty: u64,
    holding_before: u64,
    rest_retries: u32,
    balance_retries: u32,
    replies: Seq<VerifyReply>,
)
    ensures
        ({
            let flow = verify_run(
                VerifyFlow::begun(
                    has_order_no,
                    expected_qty,
                    holding_before,
                    rest_retries,
                    balance_retries,
                ),
                replies,
            );
            flow.filled_price is Some <==> (flow.source is WsNotice || flow.source is RestExecution)
        }),
    decreases replies.len(),
{
    if replies.len() > 0 {
        price_has_a_source(
            has_order_no,
            expected_qty,
            holding_before,
            rest_retries,
            balance_retries,
            replies.drop_last(),
        );
    }
}

/// Each reply came when it was waited for.
pub open spec fn verify_followed(flow: VerifyFlow, replies: Seq<VerifyReply>) -> bool
    decreases replies.len(),
{
    replies.len() == 0 || (verify_followed(flow, replies.drop_last()) && verify_run(
        flow,
        replies.drop_last(),
    ).awaits(replies.last()))
}

/// How often the balance was read.
pub open spec fn readings(replies: Seq<VerifyReply>) -> int
    decreases replies.len(),
{
    if replies.len() == 0 {
        0
    } else {
        readings(replies.drop_last()) + (if replies.last() is Balance {
            1int
        } else {
            0
        })
    }
}

/// The last balance that could be read.
pub open spec fn last_reading(replies: Seq<VerifyReply>) -> Option<u64>
    decreases replies.len(),
{
    if replies.len() == 0 {
        None
    } else {
        match replies.last() {
            VerifyReply::Balance(HoldingReply::Nothing) => Some(0),
            VerifyReply::Balance(HoldingReply::Held { qty, .. }) => Some(qty),
            _ => last_reading(replies.drop_last()),
        }
    }
}

/// A balance was read that holds nothing.
pub open spec fn reads_empty(reply: VerifyReply) -> bool {
    match reply {
        VerifyReply::Balance(HoldingReply::Nothing) => true,
        VerifyReply::Balance(HoldingReply::Held { qty, .. }) => qty == 0,
        _ => false,
    }
}

/// How often the execution list was looked at before the balance was read.
pub open spec fn early_looks(replies: Seq<VerifyReply>) -> int
    decreases replies.len(),
{
    if replies.len() == 0 {
        0
    } else {
        early_looks(replies.drop_last()) + (if replies.last() is Executions && readings(
            replies.drop_last(),
        ) == 0 {
            1int
        } else {
            0
        })
    }
}

/// How often the execution list was looked at after the balance was read.
pub open spec fn late_looks(replies: Seq<VerifyReply>) -> int
    decreases replies.len(),
{
    if replies.len() == 0 {
        0
    } else {
        late_looks(replies.drop_last()) + (if replies.last() is Executions && readings(
            replies.drop_last(),
        ) > 0 {
            1int
        } else {
            0
        })
    }
}

/// The fill that a reply tells of.
pub open spec fn fill_told(reply: VerifyReply) -> Option<Fill> {
    match reply {
        VerifyReply::Notice(got) => got,
        VerifyReply::Executions(got) => got,
        VerifyReply::Balance(_) => None,
    }
}

/// A reply tells of a fill at that price.
pub open spec fn tells_price(reply: VerifyReply, price: i64) -> bool {
    fill_told(reply) is Some && fill_told(reply)->0.price == price
}

/// A reply tells of a fill of at least that quantity.
pub open spec fn tells_quantity(reply: VerifyReply, qty: u64) -> bool {
    fill_told(reply) is Some && fill_told(reply)->0.qty >= qty
}

/// A fill of that price was told of.
pub open spec fn price_told(replies: Seq<VerifyReply>, price: i64) -> bool {
    exists|i: int|
        0 <= i < replies.len() && tells_price(#[trigger] replies[i], price)
}

/// A fill of at least that quantity was told of.
pub open spec fn quantity_told(replies: Seq<VerifyReply>, qty: u64) -> bool {
    exists|i: int|
        0 <= i < replies.len() && tells_quantity(#[trigger] replies[i], qty)
}

/// What holds of a verification under way.
pub open spec fn verify_sound(
    start: VerifyFlow,
    flow: VerifyFlow,
    replies: Seq<VerifyReply>,
) -> bool {
    let told = flow.filled_qty;
    &&& flow.valid()
    &&& flow.expected_qty == start.expected_qty
    &&& flow.holding_before == start.holding_before
    &&& flow.has_order_no == start.has_order_no
    &&& flow.rest_retries == start.rest_retries
    &&& flow.balance_retries == start.balance_retries
    &&& flow.holdings_after == last_reading(replies)
    &&& match flow.stage {
        VerifyStage::Notice => replies.len() == 0 && start.has_order_no && readings(replies) == 0
            && early_looks(replies) == 0 && late_looks(replies) == 0,
        VerifyStage::Executions(n) => early_looks(replies) == n && readings(replies) == 0
            && late_looks(replies) == 0 && replies.len() > 0 && flow.filled_qty < flow.expected_qty
            && start.has_order_no,
        VerifyStage::Balance(n) => readings(replies) == n && late_looks(replies) == 0,
        VerifyStage::LateExecutions(n) => late_looks(replies) == n && readings(replies) > 0
            && flow.filled_price is None && flow.holdings_after == Some(0u64) && start.has_order_no,
        VerifyStage::Done => readings(replies) > 0,
    }
    &&& flow.stage is Balance || flow.stage is LateExecutions || flow.stage is Done ==> (
    !start.has_order_no || early_looks(replies) == start.rest_retries || quantity_told(
        replies,
        start.expected_qty,
    ) || start.expected_qty == 0)
    &&& flow.stage is Balance || flow.stage is Executions || flow.stage is Notice ==> forall|i: int|
        0 <= i < replies.len() ==> !reads_empty(#[trigger] replies[i])
    &&& flow.stage is LateExecutions || flow.stage is Done ==> (readings(replies)
        == start.balance_retries && (forall|i: int|
        0 <= i < replies.len() ==> !reads_empty(#[trigger] replies[i]))) || flow.holdings_after
        == Some(0u64)
    &&& flow.stage is Done && flow.holdings_after == Some(0u64) && flow.filled_price is None
        && start.has_order_no ==> late_looks(replies) == start.rest_retries
    &&& !start.has_order_no ==> (flow.stage is Balance || flow.stage is Done) && forall|i: int|
        0 <= i < replies.len() ==> (#[trigger] replies[i]) is Balance
    &&& early_looks(replies) <= start.rest_retries
    &&& late_looks(replies) <= start.rest_retries
    &&& readings(replies) <= start.balance_retries
    &&& flow.filled_price is None && !(flow.source is BalanceOnly) ==> flow.filled_qty == 0
        && flow.source is Unresolved
    &&& flow.stage is Done && flow.source is Unresolved ==> !(flow.holdings_after matches Some(h)
        && h < start.holding_before)
    &&& flow.filled_price is Some ==> flow.source is WsNotice || flow.source is RestExecution
    &&& flow.source is WsNotice ==> replies.len() > 0 && (replies[0] matches VerifyReply::Notice(
        Some(_),
    ))
    &&& flow.filled_price matches Some(p) ==> price_told(replies, p)
    &&& flow.source is BalanceOnly || told == 0 || quantity_told(replies, told)
    &&& flow.source is BalanceOnly ==> flow.stage is Done && flow.filled_price is None && (
    flow.holdings_after matches Some(h) && h < start.holding_before && told + h
        == start.holding_before)
    &&& !(flow.source is BalanceOnly) ==> forall|i: int|
        0 <= i < replies.len() ==> (fill_told(#[trigger] replies[i]) matches Some(f) ==> told
            >= f.qty || told >= start.expected_qty)
    &&& forall|i: int|
        0 <= i < replies.len() ==> (#[trigger] replies[i] matches VerifyReply::Notice(Some(f))
            ==> flow.filled_price == Some(f.price) && flow.source is WsNotice)
    &&& forall|i: int|
        0 <= i < replies.len() ==> (#[trigger] replies[i] matches VerifyReply::Executions(Some(f))
            ==> f.qty > 0 && start.expected_qty > 0 ==> flow.filled_price is Some)
    &&& flow.source is BalanceOnly ==> forall|i: int|
        0 <= i < replies.len() ==> (fill_told(#[trigger] replies[i]) matches Some(f) ==> f.qty == 0
            || start.expected_qty == 0)
}

proof fn verification_stays_sound(start: VerifyFlow, replies: Seq<VerifyReply>)
    requires
        start.valid(),
        start == VerifyFlow::begun(
            start.has_order_no,
            start.expected_qty,
            start.holding_before,
            start.rest_retries,
            start.balance_retries,
        ),
        verify_followed(start, replies),
    ensures
        verify_sound(start, verify_run(start, replies), replies),
    decreases replies.len(),
{
    if replies.len() > 0 {
        let head = replies.drop_last();
        let n = replies.len() - 1;
        verification_stays_sound(start, head);
        let before = verify_run(start, head);
        let last = replies[n];
        let flow = before.next(last);
        assert(replies.last() == last);
        assert forall|i: int| 0 <= i < n implies #[trigger] replies[i] == head[i] by {}
        if before.filled_price is Some {
            let i = choose|i: int|
                0 <= i < head.len() && tells_price(#[trigger] head[i], before.filled_price->0);
            assert(replies[i] == head[i]);
        }
        if quantity_told(head, before.filled_qty) {
            let i = choose|i: int|
                0 <= i < head.len() && tells_quantity(#[trigger] head[i], before.filled_qty);
            assert(replies[i] == head[i]);
            assert(quantity_told(replies, before.filled_qty));
        }
        if quantity_told(head, start.expected_qty) {
            let i = choose|i: int|
                0 <= i < head.len() && tells_quantity(#[trigger] head[i], start.expected_qty);
            assert(replies[i] == head[i]);
            assert(quantity_told(replies, start.expected_qty));
        }
        if fill_told(last) is Some {
            let f = fill_told(last)->0;
            assert(fill_told(replies[n]) == Some(f));
            assert(price_told(replies, f.price));
            assert(quantity_told(replies, f.qty));
            if f.qty >= start.expected_qty {
                assert(quantity_told(replies, start.expected_qty));
            }
        }
    }
}

/// A verification is not content with stock that is left: it ends with a balance other than
/// nothing, or with none, only after the balance was read as often as is allowed and never showed
/// nothing.  What it reports is the last reading that succeeded.
pub proof fn balance_is_read_to_the_end(
    has_order_no: bool,
    expected_qty: u64,
    holding_before: u64,
    rest_retries: u32,
    balance_retries: u32,
    replies: Seq<VerifyReply>,
)
    requires
        1 <= rest_retries <= 10,
        1 <= balance_retries <= 10,
        verify_followed(
            VerifyFlow::begun(
                has_order_no,
                expected_qty,
                holding_before,
                rest_retries,
                balance_retries,
            ),
            replies,
        ),
    ensures
        ({
            let flow = verify_run(
                VerifyFlow::begun(
                    has_order_no,
                    expected_qty,
                    holding_before,
                    rest_retries,
                    balance_retries,
                ),
                replies,
            );
            &&& flow.holdings_after == last_reading(replies)
            &&& readings(replies) <= balance_retries
            &&& flow.stage is Done && flow.holdings_after != Some(0u64) ==> readings(replies)
                == balance_retries && forall|i: int|
                0 <= i < replies.len() ==> !reads_empty(#[trigger] replies[i])
        }),
{
    verification_stays_sound(
        VerifyFlow::begun(
            has_order_no,
            expected_qty,
            holding_before,
            rest_retries,
            balance_retries,
        ),
        replies,
    );
}

/// The balance is read only after the order was asked about: the execution list was looked at as
/// often as is allowed, unless a notice or the list told of the whole order before.
pub proof fn orders_are_asked_about_first(
    has_order_no: bool,
    expected_qty: u64,
    holding_before: u64,
    rest_retries: u32,
    balance_retries: u32,
    replies: Seq<VerifyReply>,
)
    requires
        1 <= rest_retries <= 10,
        1 <= balance_retries <= 10,
        verify_followed(
            VerifyFlow::begun(
                has_order_no,
                expected_qty,
                holding_before,
                rest_retries,
                balance_retries,
            ),
            replies,
        ),
    ensures
        ({
            let flow = verify_run(
                VerifyFlow::begun(
                    has_order_no,
                    expected_qty,
                    holding_before,
                    rest_retries,
                    balance_retries,
                ),
                replies,
            );
            &&& early_looks(replies) <= rest_retries
            &&& has_order_no && expected_qty > 0 && readings(replies) > 0 ==> early_looks(replies)
                == rest_retries || quantity_told(replies, expected_qty)
            &&& !has_order_no ==> forall|i: int|
                0 <= i < replies.len() ==> (#[trigger] replies[i]) is Balance
        }),
{
    verification_stays_sound(
        VerifyFlow::begun(
            has_order_no,
            expected_qty,
            holding_before,
            rest_retries,
            balance_retries,
        ),
        replies,
    );
}

/// Where nothing is left and no price is known, the execution list is looked at once more, as often
/// as is allowed, before the price is given up.
pub proof fn a_missing_price_is_looked_for(
    has_order_no: bool,
    expected_qty: u64,
    holding_before: u64,
    rest_retries: u32,
    balance_retries: u32,
    replies: Seq<VerifyReply>,
)
    requires
        1 <= rest_retries <= 10,
        1 <= balance_retries <= 10,
        verify_followed(
            VerifyFlow::begun(
                has_order_no,
                expected_qty,
                holding_before,
                rest_retries,
                balance_retries,
            ),
            replies,
        ),
    ensures
        ({
            let flow = verify_run(
                VerifyFlow::begun(
                    has_order_no,
                    expected_qty,
                    holding_before,
                    rest_retries,
                    balance_retries,
                ),
                replies,
            );
            &&& late_looks(replies) <= rest_retries
            &&& flow.stage is Done && has_order_no && flow.holdings_after == Some(0u64)
                && flow.filled_price is None ==> late_looks(replies) == rest_retries
        }),
{
    verification_stays_sound(
        VerifyFlow::begun(
            has_order_no,
            expected_qty,
            holding_before,
            rest_retries,
            balance_retries,
        ),
        replies,
    );
}

/// What a verification reports as sold was told of.  The price is that of the notice, where one
/// came, and otherwise that of a fill on the execution list; a fill on the list is never passed
/// over.  The quantity covers every fill that was told of, up to what was ordered, and is no more
/// than one of them.
pub proof fn sold_is_what_was_told(
    has_order_no: bool,
    expected_qty: u64,
    holding_before: u64,
    rest_retries: u32,
    balance_retries: u32,
    replies: Seq<VerifyReply>,
)
    requires
        1 <= rest_retries <= 10,
        1 <= balance_retries <= 10,
        verify_followed(
            VerifyFlow::begun(
                has_order_no,
                expected_qty,
                holding_before,
                rest_retries,
                balance_retries,
            ),
            replies,
        ),
    ensures
        ({
            let flow = verify_run(
                VerifyFlow::begun(
                    has_order_no,
                    expected_qty,
                    holding_before,
                    rest_retries,
                    balance_retries,
                ),
                replies,
            );
            &&& flow.filled_price matches Some(p) ==> price_told(replies, p)
            &&& forall|i: int|
                0 <= i < replies.len() ==> (#[trigger] replies[i] matches VerifyReply::Notice(
                    Some(f),
                ) ==> flow.filled_price == Some(f.price) && flow.source is WsNotice)
            &&& forall|i: int|
                0 <= i < replies.len() ==> (#[trigger] replies[i] matches VerifyReply::Executions(
                    Some(f),
                ) ==> f.qty > 0 && expected_qty > 0 ==> flow.filled_price is Some)
            &&& flow.filled_price is Some ==> (flow.filled_qty == 0 || quantity_told(
                replies,
                flow.filled_qty,
            )) && forall|i: int|
                0 <= i < replies.len() ==> (fill_told(#[trigger] replies[i]) matches Some(f)
                    ==> flow.filled_qty >= f.qty || flow.filled_qty >= expected_qty)
        }),
{
    verification_stays_sound(
        VerifyFlow::begun(
            has_order_no,
            expected_qty,
            holding_before,
            rest_retries,
            balance_retries,
        ),
        replies,
    );
}

/// Where no fill was told of, what the balance lost counts as sold, at no known price; where it
/// lost nothing or cannot be read, nothing does.
pub proof fn the_balance_tells_what_no_fill_did(
    has_order_no: bool,
    expected_qty: u64,
    holding_before: u64,
    rest_retries: u32,
    balance_retries: u32,
    replies: Seq<VerifyReply>,
)
    requires
        1 <= rest_retries <= 10,
        1 <= balance_retries <= 10,
        verify_followed(
            VerifyFlow::begun(
                has_order_no,
                expected_qty,
                holding_before,
                rest_retries,
                balance_retries,
            ),
            replies,
        ),
    ensures
        ({
            let flow = verify_run(
                VerifyFlow::begun(
                    has_order_no,
                    expected_qty,
                    holding_before,
                    rest_retries,
                    balance_retries,
                ),
                replies,
            );
            &&& flow.stage is Done && flow.filled_price is None ==> (match last_reading(replies) {
                Some(h) => if h < holding_before {
                    flow.filled_qty + h == holding_before && flow.source is BalanceOnly
                } else {
                    flow.filled_qty == 0 && flow.source is Unresolved
                },
                None => flow.filled_qty == 0 && flow.source is Unresolved,
            })
        }),
{
    verification_stays_sound(
        VerifyFlow::begun(
            has_order_no,
            expected_qty,
            holding_before,
            rest_retries,
            balance_retries,
        ),
        replies,
    );
}

/// A position may be taken as closed where the balance was read and holds nothing.
pub proof fn closed_only_on_a_balance_that_was_read(v: ExitVerification)
    ensures
        v.holdings_after is None ==> !v.flat_confirmed(),
        v.holdings_after matches Some(left) ==> (v.flat_confirmed() <==> left == 0),
{
}

/// A verification begins with nothing known.  An order with a number is waited for first, one
/// without is only looked up in the balance.
pub proof fn verifications_begin_with_nothing(
    has_order_no: bool,
    expected_qty: u64,
    holding_before: u64,
    rest_retries: u32,
    balance_retries: u32,
)
    ensures
        ({
            let flow = VerifyFlow::begun(
                has_order_no,
                expected_qty,
                holding_before,
                rest_retries,
                balance_retries,
            );
            &&& has_order_no ==> flow.stage is Notice
            &&& !has_order_no ==> flow.stage == VerifyStage::Balance(0)
            &&& flow.has_order_no == has_order_no
            &&& flow.expected_qty == expected_qty
            &&& flow.holding_before == holding_before
            &&& flow.rest_retries == rest_retries
            &&& flow.balance_retries == balance_retries
            &&& flow.filled_qty == 0 && flow.filled_price is None && flow.holdings_after is None
            &&& !flow.ws_received
            &&& flow.source == ExitResolutionSource::Unresolved
        }),
{
}

/// What a verification tells at its end is what it knows.
pub proof fn verifications_tell_what_they_know(flow: VerifyFlow)
    ensures
        flow.outcome().filled_qty == flow.filled_qty,
        flow.outcome().filled_price == flow.filled_price,
        flow.outcome().holdings_after == flow.holdings_after,
        flow.outcome().source == flow.source,
{
}

/// That a notice came in is known from the notice that told a fill, and from nothing else.
pub proof fn notices_are_noticed(flow: VerifyFlow, reply: VerifyReply)
    requires
        flow.valid(),
        flow.awaits(reply),
    ensures
        flow.next(reply).ws_received <==> flow.ws_received || (reply matches VerifyReply::Notice(
            Some(_),
        )),
{
}

} // verus!
