//! Price ticks of exchange-traded funds.

use vstd::prelude::*;

verus! {

/// The tick of a price: 1 below 2,000, 5 below 50,000, 50 from there on.
pub open spec fn tick_of(price: int) -> int {
    if price < 2_000 {
        1
    } else if price < 50_000 {
        5
    } else {
        50
    }
}

/// `p` is the multiple of `tick` that lies nearest to `price`, the higher one of two that lie
/// equally near.
pub open spec fn nearest_multiple(p: int, price: int, tick: int) -> bool {
    p % tick == 0 && 2 * price - tick < 2 * p <= 2 * price + tick
}

/// The tick of a price.
pub fn etf_tick_size(price: i64) -> (r: i64)
    ensures
        r == tick_of(price as int),
{
    if price < 2_000 {
        1
    } else if price < 50_000 {
        5
    } else {
        50
    }
}

/// Rounds a price to its tick: the nearest multiple, upwards from the middle.
///
/// The price must leave room for half a tick above it.
pub fn round_to_etf_tick(price: i64) -> (r: i64)
    requires
        price <= i64::MAX - 25,
    ensures
        nearest_multiple(r as int, price as int, tick_of(price as int)),
{
    let tick: i64 = etf_tick_size(price);
    if tick == 1 {
        price
    } else {
        ((price + tick / 2) / tick) * tick
    }
}

/// The nearest multiple of a tick is one price only.
pub proof fn nearest_multiple_is_unique(p: int, q: int, price: int, tick: int)
    requires
        tick == 1 || tick == 5 || tick == 50,
        nearest_multiple(p, price, tick),
        nearest_multiple(q, price, tick),
    ensures
        p == q,
{
}

/// A rounded price is a price that can be quoted: it is a multiple of its own tick, and rounding
/// it again leaves it as it is.
pub proof fn rounding_twice_is_rounding_once(price: int, once: int, twice: int)
    requires
        nearest_multiple(once, price, tick_of(price)),
        nearest_multiple(twice, once, tick_of(once)),
    ensures
        once % tick_of(once) == 0,
        twice == once,
{
}

/// Rounding moves a price by at most half a tick.
pub proof fn rounding_stays_close(price: int, rounded: int)
    requires
        nearest_multiple(rounded, price, tick_of(price)),
    ensures
        -tick_of(price) <= 2 * (rounded - price) <= tick_of(price),
{
}

/// A higher price never rounds to a lower one.
pub proof fn rounding_is_monotone(a: int, b: int, ra: int, rb: int)
    requires
        a <= b,
        nearest_multiple(ra, a, tick_of(a)),
        nearest_multiple(rb, b, tick_of(b)),
    ensures
        ra <= rb,
{
}

/// The tick grows at 2,000 and at 50,000, and a rounded price lies no further away than any other
/// price that can be quoted.
pub proof fn rounding_takes_the_nearest(price: int, rounded: int, other: int)
    requires
        nearest_multiple(rounded, price, tick_of(price)),
    ensures
        price < 2_000 ==> rounded == price,
        2_000 <= price < 50_000 ==> rounded % 5 == 0 && rounded - 2 <= price <= rounded + 2,
        50_000 <= price ==> rounded % 50 == 0 && rounded - 25 <= price < rounded + 25,
        2_000 <= price < 50_000 && other % 5 == 0 && other <= price ==> price - other >= price
            - rounded,
        2_000 <= price < 50_000 && other % 5 == 0 && other >= price ==> other - price >= rounded
            - price,
{
}

} // verus!
