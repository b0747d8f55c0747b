//! A last guard against sending the same order again and again.

use crate::clock::{truncated, TimeOfDay, NANOS_PER_SEC};
use std::collections::VecDeque;
use vstd::prelude::*;

verus! {

/// Orders older than this many seconds are forgotten.
pub const ORDER_WINDOW_SECS: i64 = 300;

/// No more orders than this are remembered.
pub const ORDER_MEMORY: usize = 10;

/// So many orders at the same price stop the runner.
pub const REPEAT_LIMIT: usize = 3;

/// An order that was sent: when, and at what price.
pub type SentOrder = (TimeOfDay, i64);

/// An order was sent in the last five minutes.
pub open spec fn recent(order: SentOrder, now: TimeOfDay) -> bool {
    let elapsed = truncated(now.since_midnight() - order.0.since_midnight(), NANOS_PER_SEC as int);
    0 <= elapsed <= ORDER_WINDOW_SECS
}

/// The remembered orders without the leading ones that are not recent.
pub open spec fn without_old(orders: Seq<SentOrder>, now: TimeOfDay) -> Seq<SentOrder>
    decreases orders.len(),
{
    if orders.len() == 0 || recent(orders[0], now) {
        orders
    } else {
        without_old(orders.subrange(1, orders.len() as int), now)
    }
}

/// The last so many elements.
pub open spec fn last_of<T>(s: Seq<T>, n: int) -> Seq<T> {
    if s.len() <= n {
        s
    } else {
        s.subrange(s.len() - n, s.len() as int)
    }
}

/// The orders that are remembered after another one was sent.
pub open spec fn remembered(orders: Seq<SentOrder>, now: TimeOfDay, price: i64) -> Seq<SentOrder> {
    last_of(without_old(orders, now).push((now, price)), ORDER_MEMORY as int)
}

/// Two prices differ by no more than a tolerance.
pub open spec fn same_price(a: i64, b: i64, tolerance: i64) -> bool {
    -tolerance <= a - b <= tolerance
}

/// How many orders were sent at a price.
pub open spec fn orders_at(orders: Seq<SentOrder>, price: i64, tolerance: i64) -> nat
    decreases orders.len(),
{
    if orders.len() == 0 {
        0
    } else {
        orders_at(orders.drop_last(), price, tolerance) + if same_price(
            orders.last().1,
            price,
            tolerance,
        ) {
            1nat
        } else {
            0
        }
    }
}

/// Every remembered order has a real time.
pub open spec fn all_timed(orders: Seq<SentOrder>) -> bool {
    forall|i: int| 0 <= i < orders.len() ==> (#[trigger] orders[i]).0.valid()
}

/// Remembers an order, and counts the remembered ones at its price, itself included.
///
/// `tolerance` is how far prices may differ and still count as the same.
pub fn update_order_queue_and_count_dup(
    queue: &mut VecDeque<SentOrder>,
    now: TimeOfDay,
    limit_price: i64,
    tolerance: i64,
) -> (r: usize)
    requires
        now.valid(),
        all_timed(old(queue)@),
        old(queue)@.len() < usize::MAX,
    ensures
        final(queue)@ == remembered(old(queue)@, now, limit_price),
        all_timed(final(queue)@),
        r == orders_at(final(queue)@, limit_price, tolerance),
{
    let ghost start = queue@;
    loop
        invariant_except_break
            all_timed(queue@),
            queue@.len() <= start.len(),
            without_old(queue@, now) == without_old(start, now),
            now.valid(),
        ensures
            all_timed(queue@),
            queue@.len() <= start.len(),
            queue@ == without_old(start, now),
        decreases queue@.len(),
    {
        if queue.len() == 0 {
            break;
        }
        let first: SentOrder = queue[0];
        let elapsed: i64 = now.seconds_since(first.0);
        if 0 <= elapsed && elapsed <= ORDER_WINDOW_SECS {
            break;
        }
        let _ = queue.pop_front();
    }
    let ghost kept = queue@;
    queue.push_back((now, limit_price));
    let ghost full = queue@;
    assert(full == kept.push((now, limit_price)));
    while queue.len() > ORDER_MEMORY
        invariant
            queue@.len() <= full.len(),
            queue@ == full.subrange(full.len() - queue@.len(), full.len() as int),
            full.len() > ORDER_MEMORY ==> queue@.len() >= ORDER_MEMORY,
            full.len() <= ORDER_MEMORY ==> queue@.len() == full.len(),
        decreases queue@.len(),
    {
        let _ = queue.pop_front();
    }
    assert(queue@ =~= last_of(full, ORDER_MEMORY as int));
    let n: usize = queue.len();
    let mut count: usize = 0;
    let mut i: usize = 0;
    while i < n
        invariant
            n == queue@.len(),
            i <= n,
            count <= i,
            count == orders_at(queue@.subrange(0, i as int), limit_price, tolerance),
        decreases n - i,
    {
        let order: SentOrder = queue[i];
        let gap: i128 = order.1 as i128 - limit_price as i128;
        let wide: i128 = tolerance as i128;
        assert(queue@.subrange(0, i + 1).drop_last() =~= queue@.subrange(0, i as int));
        if -wide <= gap && gap <= wide {
            count = count + 1;
        }
        i = i + 1;
    }
    assert(queue@.subrange(0, n as int) =~= queue@);
    count
}

/// Whether so many orders at one price have to stop the runner.
pub fn repeats_too_often(count: usize) -> (r: bool)
    ensures
        r == (count >= REPEAT_LIMIT),
{
    count >= REPEAT_LIMIT
}

/// No more than ten orders are ever remembered, and the newest is always among them.
pub proof fn memory_is_bounded(orders: Seq<SentOrder>, now: TimeOfDay, price: i64)
    ensures
        1 <= remembered(orders, now, price).len() <= ORDER_MEMORY,
        remembered(orders, now, price).last() == (now, price),
{
}

/// An order counts itself: the count is one at least, where the tolerance is not negative.
pub proof fn order_counts_itself(orders: Seq<SentOrder>, now: TimeOfDay, price: i64, tolerance: i64)
    requires
        tolerance >= 0,
    ensures
        orders_at(remembered(orders, now, price), price, tolerance) >= 1,
{
    let kept = remembered(orders, now, price);
    memory_is_bounded(orders, now, price);
    assert(kept.last() == (now, price));
}

/// How far back an order lies, in nanoseconds.
pub open spec fn lies_back(order: SentOrder, now: TimeOfDay) -> int {
    (now.secs - order.0.secs) * 1_000_000_000 + now.nanos - order.0.nanos
}

/// An order counts as recent from less than a second ahead of now until 300 whole seconds are over.
pub proof fn recent_is_five_minutes(order: SentOrder, now: TimeOfDay)
    ensures
        recent(order, now) <==> -1_000_000_000 < lies_back(order, now) < 301_000_000_000,
{
    let d = now.since_midnight() - order.0.since_midnight();
    assert(d == lies_back(order, now));
}

proof fn old_ones_are_leading(orders: Seq<SentOrder>, now: TimeOfDay)
    ensures
        without_old(orders, now).len() <= orders.len(),
        without_old(orders, now) == orders.subrange(
            orders.len() - without_old(orders, now).len(),
            orders.len() as int,
        ),
        without_old(orders, now).len() > 0 ==> recent(without_old(orders, now)[0], now),
        forall|i: int|
            0 <= i < orders.len() - without_old(orders, now).len() ==> !recent(
                #[trigger] orders[i],
                now,
            ),
    decreases orders.len(),
{
    if orders.len() == 0 || recent(orders[0], now) {
        assert(orders.subrange(0, orders.len() as int) =~= orders);
    } else {
        let rest = orders.subrange(1, orders.len() as int);
        old_ones_are_leading(rest, now);
        let kept = without_old(rest, now);
        assert(orders.subrange(orders.len() - kept.len(), orders.len() as int) =~= rest.subrange(
            rest.len() - kept.len(),
            rest.len() as int,
        ));
        assert forall|i: int| 0 <= i < orders.len() - kept.len() implies !recent(
            #[trigger] orders[i],
            now,
        ) by {
            if i > 0 {
                assert(rest[i - 1] == orders[i]);
            }
        }
    }
}

/// The orders that are forgotten are the oldest ones: those in front of the first one of the last
/// five minutes, and those beyond the ten newest.  The others stay as they were, and in their
/// order, with the new one behind them.
pub proof fn only_the_oldest_are_forgotten(orders: Seq<SentOrder>, now: TimeOfDay, price: i64)
    ensures
        ({
            let kept = remembered(orders, now, price);
            let gone = orders.len() + 1 - kept.len();
            &&& 0 <= gone <= orders.len()
            &&& 1 <= kept.len() <= 10
            &&& kept == orders.push((now, price)).subrange(gone, (orders.len() + 1) as int)
            &&& kept.len() < 10 ==> {
                &&& forall|i: int|
                    0 <= i < gone ==> !(-1_000_000_000 < #[trigger] lies_back(orders[i], now)
                        < 301_000_000_000)
                &&& gone < orders.len() ==> -1_000_000_000 < lies_back(orders[gone], now)
                    < 301_000_000_000
            }
        }),
{
    old_ones_are_leading(orders, now);
    let young = without_old(orders, now);
    let full = young.push((now, price));
    let kept = remembered(orders, now, price);
    let all = orders.push((now, price));
    let gone = orders.len() + 1 - kept.len();
    assert(full =~= all.subrange(all.len() - full.len(), all.len() as int));
    assert(kept =~= all.subrange(gone, (orders.len() + 1) as int));
    assert forall|i: int| kept.len() < 10 && 0 <= i < gone implies !(-1_000_000_000
        < #[trigger] lies_back(orders[i], now) < 301_000_000_000) by {
        recent_is_five_minutes(orders[i], now);
        assert(!recent(orders[i], now));
    }
    if kept.len() < 10 && gone < orders.len() {
        assert(young[0] == orders[gone]);
        recent_is_five_minutes(orders[gone], now);
    }
}

/// Ten orders are remembered where so many follow the first recent one.
pub proof fn ten_recent_orders_are_remembered(
    orders: Seq<SentOrder>,
    now: TimeOfDay,
    price: i64,
    first: int,
)
    requires
        0 <= first < orders.len(),
        orders.len() - first >= 9,
        -1_000_000_000 < lies_back(orders[first], now) < 301_000_000_000,
    ensures
        remembered(orders, now, price).len() == 10,
{
    old_ones_are_leading(orders, now);
    recent_is_five_minutes(orders[first], now);
}

/// The orders at a price are counted one by one: an order counts where its price is no further away
/// than the tolerance, above or below, and the count is that of a filter.
pub proof fn near_prices_are_counted(orders: Seq<SentOrder>, price: i64, tolerance: i64)
    ensures
        orders_at(orders, price, tolerance) == orders.filter(
            |o: SentOrder| o.1 - price <= tolerance && price - o.1 <= tolerance,
        ).len(),
    decreases orders.len(),
{
    let near = |o: SentOrder| o.1 - price <= tolerance && price - o.1 <= tolerance;
    reveal(Seq::filter);
    if orders.len() > 0 {
        near_prices_are_counted(orders.drop_last(), price, tolerance);
    }
}

/// The third order at one price stops the runner.
pub proof fn third_order_is_one_too_many(count: usize)
    ensures
        count >= REPEAT_LIMIT <==> count >= 3,
        ORDER_MEMORY == 10,
        ORDER_WINDOW_SECS == 300,
{
}

} // verus!
