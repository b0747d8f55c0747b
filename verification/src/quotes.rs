//! Best quotes: whether they make sense, and whether they are close enough to trade on.

use crate::text::same_text;
use crate::ticks::{etf_tick_size, tick_of};
use crate::types::PositionSide;
use vstd::prelude::*;

verus! {

/// A price or quote older than this is not relied on.
pub const FRESH_MS: u64 = 30_000;

/// A spread of more than this many ticks is too wide to enter on.
pub const DEFAULT_SPREAD_THRESHOLD_TICKS: u32 = 3;

/// Whether a quote makes sense.
#[derive(Debug, Clone, Copy, PartialEq, Eq)]
pub enum QuoteSanityEvaluation {
    Valid,
    /// It does not, and why.
    Invalid(&'static str),
}

/// The spread of the best quotes against its limit.
#[derive(Debug, Clone, Copy, PartialEq, Eq, Structural)]
pub struct SpreadGateEvaluation {
    pub spread_ok: bool,
    pub spread_ask: Option<i64>,
    pub spread_bid: Option<i64>,
    pub spread_mid: Option<i64>,
    pub spread_raw: Option<i64>,
    pub spread_tick: Option<i64>,
    pub spread_threshold_ticks: u32,
}

/// The middle of a quote, rounded towards zero but at least 1.
pub open spec fn middle(ask: i64, bid: i64) -> int {
    let mid = crate::clock::truncated(ask + bid, 2);
    if mid >= 1 {
        mid
    } else {
        1
    }
}

/// How far a quote's middle lies from the price, in whole percent of the price.
pub open spec fn deviation_percent(mid: int, price: i64) -> i64 {
    let distance = if mid >= price {
        mid - price
    } else {
        price - mid
    };
    ((distance * 100 / (price as int)) as i128) as i64
}

/// What is wrong with a quote: a side that is not positive, then an ask below the bid, then a
/// middle more than 5% away from the current price where that is known and positive.
pub open spec fn quote_fault(ask: i64, bid: i64, current_price: Option<i64>) -> Option<Seq<char>> {
    if ask <= 0 || bid <= 0 {
        Some("nonpositive"@)
    } else if ask < bid {
        Some("inverted"@)
    } else if current_price matches Some(price) && price > 0 && deviation_percent(
        middle(ask, bid),
        price,
    ) > 5 {
        Some("off_market"@)
    } else {
        None
    }
}

/// Whether a quote makes sense.
pub fn validate_quote_sanity(ask: i64, bid: i64, current_price: Option<i64>) -> (r:
    QuoteSanityEvaluation)
    ensures
        match r {
            QuoteSanityEvaluation::Valid => quote_fault(ask, bid, current_price) is None,
            QuoteSanityEvaluation::Invalid(why) => quote_fault(ask, bid, current_price) == Some(
                why@,
            ),
        },
{
    if ask <= 0 || bid <= 0 {
        return QuoteSanityEvaluation::Invalid("nonpositive");
    }
    if ask < bid {
        return QuoteSanityEvaluation::Invalid("inverted");
    }
    if let Some(price) = current_price {
        if price > 0 {
            let half: i128 = (ask as i128 + bid as i128) / 2;
            let mid: i128 = if half >= 1 {
                half
            } else {
                1
            };
            let distance: i128 = if mid >= price as i128 {
                mid - price as i128
            } else {
                price as i128 - mid
            };
            let percent: i128 = (distance * 100) / (price as i128);
            if percent as i64 > 5 {
                return QuoteSanityEvaluation::Invalid("off_market");
            }
        }
    }
    QuoteSanityEvaluation::Valid
}

/// What came of a new quote.
#[derive(Debug, Clone, Copy)]
pub enum QuoteUpdate {
    /// It replaces the quote that was known.
    Accepted,
    /// The known quote stays.  `news` tells a fault that was not known before.
    Refused { reason: &'static str, news: bool },
}

/// Takes in a new quote.  A quote that makes no sense is remembered as a fault, until one comes
/// that does.
pub fn apply_quote_update(
    issue: &mut Option<String>,
    ask: i64,
    bid: i64,
    current_price: Option<i64>,
) -> (r: QuoteUpdate)
    ensures
        match quote_fault(ask, bid, current_price) {
            None => r is Accepted && *final(issue) is None,
            Some(fault) => {
                &&& r is Refused
                &&& r->reason@ == fault
                &&& r->news == !(*old(issue) is Some && old(issue)->0@ == fault)
                &&& *final(issue) is Some
                &&& final(issue)->0@ == fault
            },
        },
{
    match validate_quote_sanity(ask, bid, current_price) {
        QuoteSanityEvaluation::Valid => {
            *issue = None;
            QuoteUpdate::Accepted
        },
        QuoteSanityEvaluation::Invalid(reason) => {
            let known: bool = match &*issue {
                Some(k) => same_text(k.as_str(), reason),
                None => false,
            };
            *issue = Some(reason.to_owned());
            QuoteUpdate::Refused { reason, news: !known }
        },
    }
}

/// The spread of the best quotes against its limit.  Without quotes it is open only where
/// no real money is at stake.
pub open spec fn spread_gate(
    quote: Option<(i64, i64)>,
    real_mode: bool,
    threshold_ticks: u32,
) -> SpreadGateEvaluation {
    match quote {
        Some((ask, bid)) => {
            let tick = tick_of(middle(ask, bid));
            SpreadGateEvaluation {
                spread_ok: bid <= ask && ask - bid <= tick * threshold_ticks,
                spread_ask: Some(ask),
                spread_bid: Some(bid),
                spread_mid: Some(middle(ask, bid) as i64),
                spread_raw: Some((ask - bid) as i64),
                spread_tick: Some(tick as i64),
                spread_threshold_ticks: threshold_ticks,
            }
        },
        None => SpreadGateEvaluation {
            spread_ok: !real_mode,
            spread_ask: None,
            spread_bid: None,
            spread_mid: None,
            spread_raw: None,
            spread_tick: None,
            spread_threshold_ticks: threshold_ticks,
        },
    }
}

/// The spread of the best quotes against its limit.
pub fn evaluate_spread_gate(
    quote_snapshot: Option<(i64, i64)>,
    real_mode: bool,
    threshold_ticks: u32,
) -> (r: SpreadGateEvaluation)
    requires
        quote_snapshot matches Some(q) ==> i64::MIN <= q.0 - q.1 <= i64::MAX,
    ensures
        r == spread_gate(quote_snapshot, real_mode, threshold_ticks),
{
    match quote_snapshot {
        Some((ask, bid)) => {
            let half: i128 = (ask as i128 + bid as i128) / 2;
            let mid: i64 = if half >= 1 {
                half as i64
            } else {
                1
            };
            assert(mid == middle(ask, bid));
            let tick: i64 = etf_tick_size(mid);
            assert(tick == tick_of(middle(ask, bid)));
            let raw: i64 = ask - bid;
            let limit: i64 = if tick == 1 {
                threshold_ticks as i64
            } else if tick == 5 {
                5 * threshold_ticks as i64
            } else {
                50 * threshold_ticks as i64
            };
            SpreadGateEvaluation {
                spread_ok: ask >= bid && raw <= limit,
                spread_ask: Some(ask),
                spread_bid: Some(bid),
                spread_mid: Some(mid),
                spread_raw: Some(raw),
                spread_tick: Some(tick),
                spread_threshold_ticks: threshold_ticks,
            }
        },
        None => SpreadGateEvaluation {
            spread_ok: !real_mode,
            spread_ask: None,
            spread_bid: None,
            spread_mid: None,
            spread_raw: None,
            spread_tick: None,
            spread_threshold_ticks: threshold_ticks,
        },
    }
}

/// The last price with its age, and whether it may be used: younger than half a minute.
pub fn fresh_price(latest: Option<(i64, u64)>) -> (r: Option<i64>)
    ensures
        r == (match latest {
            Some((price, age_ms)) => if age_ms < FRESH_MS {
                Some(price)
            } else {
                None
            },
            None => None,
        }),
{
    match latest {
        Some((price, age_ms)) => if age_ms < FRESH_MS {
            Some(price)
        } else {
            None
        },
        None => None,
    }
}

/// The best quotes that may be used: younger than half a minute, positive, and not crossed.
pub open spec fn usable_quote(latest: Option<(i64, i64, u64)>) -> Option<(i64, i64)> {
    match latest {
        Some((ask, bid, age_ms)) => if age_ms < FRESH_MS && ask > 0 && bid > 0 && ask >= bid {
            Some((ask, bid))
        } else {
            None
        },
        None => None,
    }
}

/// The best quotes that may be used.
pub fn latest_quote_snapshot(latest: Option<(i64, i64, u64)>) -> (r: Option<(i64, i64)>)
    ensures
        r == usable_quote(latest),
{
    match latest {
        Some((ask, bid, age_ms)) => if age_ms < FRESH_MS && ask > 0 && bid > 0 && ask >= bid {
            Some((ask, bid))
        } else {
            None
        },
        None => None,
    }
}

/// The quote that an order of a side would meet.
pub fn best_quote_for_side(latest: Option<(i64, i64, u64)>, side: PositionSide) -> (r: Option<i64>)
    ensures
        r == (match usable_quote(latest) {
            Some((ask, bid)) => Some(
                if side is Long {
                    ask
                } else {
                    bid
                },
            ),
            None => None::<i64>,
        }),
{
    match latest_quote_snapshot(latest) {
        Some((ask, bid)) => match side {
            PositionSide::Long => Some(ask),
            PositionSide::Short => Some(bid),
        },
        None => None,
    }
}

/// A quote that may be used passes every test of a quote except its distance from the price.
pub proof fn usable_quotes_are_positive_and_uncrossed(latest: Option<(i64, i64, u64)>)
    requires
        usable_quote(latest) is Some,
    ensures
        ({
            let (ask, bid) = usable_quote(latest)->0;
            quote_fault(ask, bid, None) is None
        }),
{
}

/// A wider limit never closes the spread gate.
pub proof fn wider_limit_keeps_gate_open(quote: (i64, i64), real_mode: bool, narrow: u32, wide: u32)
    requires
        narrow <= wide,
        spread_gate(Some(quote), real_mode, narrow).spread_ok,
    ensures
        spread_gate(Some(quote), real_mode, wide).spread_ok,
{
    let tick = tick_of(middle(quote.0, quote.1));
    assert(tick * narrow <= tick * wide) by (nonlinear_arith)
        requires
            tick > 0,
            narrow <= wide,
    ;
}

/// The middle of a quote lies between its sides, where both are positive, and as near to one as to
/// the other but for half a unit.
pub proof fn middle_lies_in_the_middle(ask: i64, bid: i64)
    ensures
        ask > 0 && bid > 0 ==> 2 * middle(ask, bid) <= ask + bid < 2 * middle(ask, bid) + 2,
        ask + bid < 2 ==> middle(ask, bid) == 1,
        middle(ask, bid) >= 1,
{
}

/// What is wrong with a quote: a side that is not positive, else an ask below its bid, else a
/// middle six percent or more of the price away from it.  A price that is missing or not positive
/// finds no fault.
pub proof fn quote_faults_are_these(ask: i64, bid: i64, price: i64)
    requires
        price <= 1_000_000_000_000,
        ask <= 1_000_000_000_000,
        bid <= 1_000_000_000_000,
    ensures
        ({
            let none: Option<i64> = None;
            let broken = ask <= 0 || bid <= 0;
            let mid = (ask + bid) / 2;
            let away = if mid >= price {
                mid - price
            } else {
                price - mid
            };
            &&& broken ==> quote_fault(ask, bid, Some(price)) == Some("nonpositive"@)
                && quote_fault(ask, bid, none) == Some("nonpositive"@)
            &&& !broken && ask < bid ==> quote_fault(ask, bid, Some(price)) == Some("inverted"@)
                && quote_fault(ask, bid, none) == Some("inverted"@)
            &&& !broken && ask >= bid ==> quote_fault(ask, bid, none) is None
            &&& !broken && ask >= bid && price <= 0 ==> quote_fault(ask, bid, Some(price)) is None
            &&& !broken && ask >= bid && price > 0 ==> quote_fault(ask, bid, Some(price)) == (
            if away * 100 >= 6 * price {
                Some("off_market"@)
            } else {
                None
            })
        }),
{
    if ask > 0 && bid > 0 && ask >= bid && price > 0 {
        let mid = (ask + bid) / 2;
        assert(middle(ask, bid) == mid);
        let away = if mid >= price {
            mid - price
        } else {
            price - mid
        };
        let q = (away * 100) / (price as int);
        assert(0 <= away <= 1_000_000_000_000);
        vstd::arithmetic::div_mod::lemma_fundamental_div_mod(away * 100, price as int);
        vstd::arithmetic::div_mod::lemma_mod_bound(away * 100, price as int);
        assert(0 <= q <= away * 100) by (nonlinear_arith)
            requires
                price > 0,
                away >= 0,
                price * q <= away * 100,
                away * 100 < price * q + price,
        ;
        assert(deviation_percent(mid, price) == q);
        assert(q > 5 <==> away * 100 >= 6 * price) by (nonlinear_arith)
            requires
                price > 0,
                price * q <= away * 100,
                away * 100 < price * q + price,
        ;
    }
}

/// The gap between ask and bid is narrow enough where it is not negative and spans no more than the
/// allowed number of ticks, each of them 1 below 2,000, 5 below 50,000 and 50 from there on; what
/// is told of it are the quote's own figures.
pub proof fn narrow_quotes_pass(ask: i64, bid: i64, real_mode: bool, ticks: u32)
    requires
        i64::MIN <= ask - bid <= i64::MAX,
    ensures
        ({
            let g = spread_gate(Some((ask, bid)), real_mode, ticks);
            let sum = ask + bid;
            &&& sum < 4_000 ==> (g.spread_ok <==> 0 <= ask - bid <= ticks) && g.spread_tick == Some(
                1i64,
            )
            &&& 4_000 <= sum < 100_000 ==> (g.spread_ok <==> 0 <= ask - bid <= 5 * ticks)
                && g.spread_tick == Some(5i64)
            &&& 100_000 <= sum ==> (g.spread_ok <==> 0 <= ask - bid <= 50 * ticks) && g.spread_tick
                == Some(50i64)
            &&& g.spread_ask == Some(ask)
            &&& g.spread_bid == Some(bid)
            &&& g.spread_raw is Some && g.spread_raw->0 == ask - bid
            &&& ask > 0 && bid > 0 ==> g.spread_mid is Some && 2 * g.spread_mid->0 <= sum < 2
                * g.spread_mid->0 + 2
            &&& g.spread_threshold_ticks == ticks
        }),
{
    let mid = middle(ask, bid);
    let tick = tick_of(mid);
    assert(tick == 1 ==> tick * ticks == ticks) by (nonlinear_arith);
    assert(tick == 5 ==> tick * ticks == 5 * ticks) by (nonlinear_arith);
    assert(tick == 50 ==> tick * ticks == 50 * ticks) by (nonlinear_arith);
}

/// Without a quote nothing is entered with real money, and nothing is told of one.
pub proof fn real_money_needs_a_quote(real_mode: bool, ticks: u32)
    ensures
        ({
            let g = spread_gate(None, real_mode, ticks);
            &&& g.spread_ok <==> !real_mode
            &&& g.spread_ask is None && g.spread_bid is None && g.spread_mid is None
            &&& g.spread_raw is None && g.spread_tick is None
            &&& g.spread_threshold_ticks == ticks
        }),
{
}

/// The last quote is used as it is, or not at all: only where it is less than half a minute old,
/// both sides are positive and the ask is not below the bid.
pub proof fn quotes_are_used_while_fresh(ask: i64, bid: i64, age_ms: u64)
    ensures
        usable_quote(Some((ask, bid, age_ms))) == (if age_ms < 30_000 && 0 < bid && bid <= ask {
            Some((ask, bid))
        } else {
            None
        }),
        usable_quote(None) is None,
        FRESH_MS == 30_000,
{
}

} // verus!
