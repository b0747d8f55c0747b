//! How a stop follows the price.

use crate::types::{Position, PositionSide};
use vstd::prelude::*;

verus! {

/// The levels that follow the price.
#[derive(Debug, Clone, Copy, PartialEq, Eq, Structural)]
pub struct Trail {
    /// The best price since the entry.
    pub best: i64,
    pub stop: i64,
    /// The position earned enough for the stop to move to the entry.
    pub reached_1r: bool,
}

/// What moved.
#[derive(Debug, Clone, Copy, PartialEq, Eq, Structural)]
pub struct TrailingUpdate {
    /// The stop moved to the entry just now.
    pub reached_1r_newly: bool,
    /// The stop followed the best price.
    pub trailing_changed: bool,
}

/// `a` lies further in the position's favour than `b`.
pub open spec fn better(side: PositionSide, a: int, b: int) -> bool {
    match side {
        PositionSide::Long => a > b,
        PositionSide::Short => a < b,
    }
}

/// The price `distance` short of another, as the position sees it.
pub open spec fn short_of(side: PositionSide, price: int, distance: int) -> int {
    match side {
        PositionSide::Long => price - distance,
        PositionSide::Short => price + distance,
    }
}

/// How much a position earns at a price.
pub open spec fn gain_at(side: PositionSide, entry: int, price: int) -> int {
    match side {
        PositionSide::Long => price - entry,
        PositionSide::Short => entry - price,
    }
}

impl Trail {
    /// The best price with a new one taken in.
    pub open spec fn best_with(self, side: PositionSide, price: i64) -> i64 {
        if better(side, price as int, self.best as int) {
            price
        } else {
            self.best
        }
    }

    /// The position has earned `breakeven` at some time, a new price included.
    pub open spec fn reached_with(
        self,
        side: PositionSide,
        entry: i64,
        breakeven: i64,
        price: i64,
    ) -> bool {
        self.reached_1r || gain_at(side, entry as int, self.best_with(side, price) as int)
            >= breakeven
    }

    /// Where the stop stands before it follows the best price: at the entry if the position has
    /// just earned enough.
    pub open spec fn stop_before(
        self,
        side: PositionSide,
        entry: i64,
        breakeven: i64,
        price: i64,
    ) -> i64 {
        if self.reached_with(side, entry, breakeven, price) && !self.reached_1r {
            entry
        } else {
            self.stop
        }
    }

    /// The levels after a new price: the stop follows the best price at `distance` once the
    /// position has earned enough, and only ever in its favour.
    pub open spec fn after(
        self,
        side: PositionSide,
        entry: i64,
        breakeven: i64,
        distance: i64,
        price: i64,
    ) -> Trail {
        let best = self.best_with(side, price);
        let reached = self.reached_with(side, entry, breakeven, price);
        let base = self.stop_before(side, entry, breakeven, price);
        let level = short_of(side, best as int, distance as int);
        Trail {
            best,
            stop: if reached && better(side, level, base as int) {
                level as i64
            } else {
                base
            },
            reached_1r: reached,
        }
    }

    /// The differences between the prices fit into 64 bits.
    pub open spec fn computable(
        self,
        side: PositionSide,
        entry: i64,
        distance: i64,
        price: i64,
    ) -> bool {
        let best = self.best_with(side, price);
        &&& i64::MIN <= gain_at(side, entry as int, best as int) <= i64::MAX
        &&& i64::MIN <= short_of(side, best as int, distance as int) <= i64::MAX
    }
}

/// Takes in a new price.
pub fn update_best_and_trailing(
    trail: &mut Trail,
    side: PositionSide,
    entry: i64,
    breakeven: i64,
    distance: i64,
    price: i64,
) -> (r: TrailingUpdate)
    requires
        old(trail).computable(side, entry, distance, price),
    ensures
        *final(trail) == old(trail).after(side, entry, breakeven, distance, price),
        final(trail).reached_1r ==> seen(side, final(trail).stop as int) >= seen(
            side,
            final(trail).best as int,
        ) - distance,
        r.reached_1r_newly == (final(trail).reached_1r && !old(trail).reached_1r),
        r.trailing_changed == (final(trail).stop != old(trail).stop_before(
            side,
            entry,
            breakeven,
            price,
        )),
{
    let improves: bool = match side {
        PositionSide::Long => price > trail.best,
        PositionSide::Short => price < trail.best,
    };
    if improves {
        trail.best = price;
    }
    let gain: i64 = match side {
        PositionSide::Long => trail.best - entry,
        PositionSide::Short => entry - trail.best,
    };
    let mut reached_1r_newly: bool = false;
    if !trail.reached_1r && gain >= breakeven {
        trail.reached_1r = true;
        trail.stop = entry;
        reached_1r_newly = true;
    }
    let mut trailing_changed: bool = false;
    let level: i64 = match side {
        PositionSide::Long => trail.best - distance,
        PositionSide::Short => trail.best + distance,
    };
    if trail.reached_1r {
        let follows: bool = match side {
            PositionSide::Long => level > trail.stop,
            PositionSide::Short => level < trail.stop,
        };
        if follows {
            trail.stop = level;
            trailing_changed = true;
        }
    }
    TrailingUpdate { reached_1r_newly, trailing_changed }
}

/// The price stands at the stop or beyond it.
pub open spec fn stop_hit(side: PositionSide, stop: i64, price: i64) -> bool {
    match side {
        PositionSide::Long => price <= stop,
        PositionSide::Short => price >= stop,
    }
}

/// The price stands at the take-profit level or beyond it.
pub open spec fn target_hit(side: PositionSide, target: i64, price: i64) -> bool {
    match side {
        PositionSide::Long => price >= target,
        PositionSide::Short => price <= target,
    }
}

/// Whether the price stands at the stop or beyond it.
pub fn is_sl_hit(side: PositionSide, stop: i64, price: i64) -> (r: bool)
    ensures
        r == stop_hit(side, stop, price),
{
    match side {
        PositionSide::Long => price <= stop,
        PositionSide::Short => price >= stop,
    }
}

/// Whether the price stands at the take-profit level or beyond it.
pub fn is_tp_hit(side: PositionSide, target: i64, price: i64) -> (r: bool)
    ensures
        r == target_hit(side, target, price),
{
    match side {
        PositionSide::Long => price >= target,
        PositionSide::Short => price <= target,
    }
}

impl Position {
    /// The levels that follow the price.
    pub open spec fn trail(self) -> Trail {
        Trail { best: self.best_price, stop: self.stop_loss, reached_1r: self.reached_1r }
    }

    /// The position with other levels.
    pub open spec fn with_trail(self, t: Trail) -> Position {
        Position { best_price: t.best, stop_loss: t.stop, reached_1r: t.reached_1r, ..self }
    }

    /// Takes in a new price.
    pub fn follow(&mut self, breakeven: i64, distance: i64, price: i64) -> (r: TrailingUpdate)
        requires
            old(self).trail().computable(old(self).side, old(self).entry_price, distance, price),
        ensures
            *final(self) == old(self).with_trail(
                old(self).trail().after(
                    old(self).side,
                    old(self).entry_price,
                    breakeven,
                    distance,
                    price,
                ),
            ),
            r.reached_1r_newly == (final(self).reached_1r && !old(self).reached_1r),
            r.trailing_changed == (final(self).stop_loss != old(self).trail().stop_before(
                old(self).side,
                old(self).entry_price,
                breakeven,
                price,
            )),
    {
        let mut trail = Trail {
            best: self.best_price,
            stop: self.stop_loss,
            reached_1r: self.reached_1r,
        };
        let update = update_best_and_trailing(
            &mut trail,
            self.side,
            self.entry_price,
            breakeven,
            distance,
            price,
        );
        self.best_price = trail.best;
        self.stop_loss = trail.stop;
        self.reached_1r = trail.reached_1r;
        update
    }

    /// Takes in a price from the market.  The answer is whether the stop was hit for the first
    /// time, so that the position has to be looked at at once.
    pub fn on_tick(&mut self, breakeven: i64, distance: i64, price: i64) -> (wake: bool)
        requires
            old(self).trail().computable(old(self).side, old(self).entry_price, distance, price),
        ensures
            ({
                let followed = old(self).with_trail(
                    old(self).trail().after(
                        old(self).side,
                        old(self).entry_price,
                        breakeven,
                        distance,
                        price,
                    ),
                );
                let hit = stop_hit(followed.side, followed.stop_loss, price);
                &&& wake == (hit && !old(self).sl_triggered_tick)
                &&& *final(self) == (Position {
                    sl_triggered_tick: old(self).sl_triggered_tick || hit,
                    ..followed
                })
            }),
    {
        let _ = self.follow(breakeven, distance, price);
        if is_sl_hit(self.side, self.stop_loss, price) && !self.sl_triggered_tick {
            self.sl_triggered_tick = true;
            true
        } else {
            false
        }
    }
}

/// The levels after several prices, in their order.
pub open spec fn trail_run(
    t: Trail,
    side: PositionSide,
    entry: i64,
    breakeven: i64,
    distance: i64,
    prices: Seq<i64>,
) -> Trail
    decreases prices.len(),
{
    if prices.len() == 0 {
        t
    } else {
        trail_run(t, side, entry, breakeven, distance, prices.drop_last()).after(
            side,
            entry,
            breakeven,
            distance,
            prices.last(),
        )
    }
}

/// Until the position has earned enough, its stop lies no better than its entry.
pub open spec fn stop_in_place(t: Trail, side: PositionSide, entry: i64) -> bool {
    t.reached_1r || !better(side, t.stop as int, entry as int)
}

proof fn one_price_never_loosens(
    t: Trail,
    side: PositionSide,
    entry: i64,
    breakeven: i64,
    distance: i64,
    price: i64,
)
    requires
        stop_in_place(t, side, entry),
        i64::MIN <= short_of(side, t.best_with(side, price) as int, distance as int) <= i64::MAX,
    ensures
        ({
            let u = t.after(side, entry, breakeven, distance, price);
            &&& stop_in_place(u, side, entry)
            &&& !better(side, t.stop as int, u.stop as int)
            &&& !better(side, t.best as int, u.best as int)
            &&& !better(side, price as int, u.best as int)
            &&& t.reached_1r ==> u.reached_1r
            &&& u.reached_1r && !t.reached_1r ==> !better(side, entry as int, u.stop as int)
        }),
{
}

/// Whatever the prices, the stop only ever moves in the position's favour, the best price is the
/// best one, and a position that has earned enough stays so.
pub proof fn stop_never_loosens(
    t: Trail,
    side: PositionSide,
    entry: i64,
    breakeven: i64,
    distance: i64,
    prices: Seq<i64>,
)
    requires
        stop_in_place(t, side, entry),
        forall|n: int|
            0 <= n < prices.len() ==> i64::MIN <= short_of(
                side,
                (#[trigger] trail_run(t, side, entry, breakeven, distance, prices.take(n))).best_with(
                    side,
                    prices[n],
                ) as int,
                distance as int,
            ) <= i64::MAX,
    ensures
        ({
            let u = trail_run(t, side, entry, breakeven, distance, prices);
            &&& stop_in_place(u, side, entry)
            &&& !better(side, t.stop as int, u.stop as int)
            &&& !better(side, t.best as int, u.best as int)
            &&& t.reached_1r ==> u.reached_1r
        }),
        forall|i: int|
            0 <= i < prices.len() ==> !better(
                side,
                #[trigger] prices[i] as int,
                trail_run(t, side, entry, breakeven, distance, prices).best as int,
            ),
    decreases prices.len(),
{
    if prices.len() > 0 {
        let head = prices.drop_last();
        let n = prices.len() - 1;
        assert(prices.take(n) =~= head);
        assert forall|k: int| 0 <= k < head.len() implies i64::MIN <= short_of(
            side,
            (#[trigger] trail_run(t, side, entry, breakeven, distance, head.take(k))).best_with(
                side,
                head[k],
            ) as int,
            distance as int,
        ) <= i64::MAX by {
            assert(head.take(k) =~= prices.take(k));
            assert(head[k] == prices[k]);
            let _ = trail_run(t, side, entry, breakeven, distance, prices.take(k));
        }
        stop_never_loosens(t, side, entry, breakeven, distance, head);
        let before = trail_run(t, side, entry, breakeven, distance, head);
        assert(trail_run(t, side, entry, breakeven, distance, prices.take(n)) == before);
        one_price_never_loosens(before, side, entry, breakeven, distance, prices[n]);
        assert forall|i: int| 0 <= i < prices.len() implies !better(
            side,
            #[trigger] prices[i] as int,
            trail_run(t, side, entry, breakeven, distance, prices).best as int,
        ) by {
            if i < n {
                assert(head[i] == prices[i]);
            }
        }
    }
}

/// Where a price stands as the position sees it: the higher the better.
pub open spec fn seen(side: PositionSide, price: int) -> int {
    match side {
        PositionSide::Long => price,
        PositionSide::Short => -price,
    }
}

/// The price at the trailing distance behind another one fits into 64 bits.
pub open spec fn level_fits(side: PositionSide, price: i64, distance: i64) -> bool {
    i64::MIN <= seen(side, seen(side, price as int) - distance) <= i64::MAX
}

/// After any prices, at least one, the best price is the best of them and of the one known before;
/// the position counts as having reached 1R exactly where that price earned the break-even
/// distance, or it counted so before; until then the stop has not moved, and from then on it is
/// the better of two levels: the trailing distance behind the best price, and the entry (or the
/// stop of before, where 1R was reached before).
pub proof fn stop_trails_the_best_price(
    t: Trail,
    side: PositionSide,
    entry: i64,
    breakeven: i64,
    distance: i64,
    prices: Seq<i64>,
)
    requires
        prices.len() > 0,
        t.reached_1r || seen(side, t.stop as int) <= seen(side, entry as int),
        level_fits(side, t.best, distance),
        forall|i: int| 0 <= i < prices.len() ==> level_fits(side, #[trigger] prices[i], distance),
    ensures
        ({
            let u = trail_run(t, side, entry, breakeven, distance, prices);
            let best = seen(side, u.best as int);
            let stop = seen(side, u.stop as int);
            let floor = if t.reached_1r {
                seen(side, t.stop as int)
            } else {
                seen(side, entry as int)
            };
            &&& best >= seen(side, t.best as int)
            &&& forall|i: int| 0 <= i < prices.len() ==> best >= seen(side, #[trigger] prices[i] as int)
            &&& u.best == t.best || exists|i: int|
                0 <= i < prices.len() && #[trigger] prices[i] == u.best
            &&& u.reached_1r == (t.reached_1r || best - seen(side, entry as int) >= breakeven)
            &&& u.reached_1r ==> stop >= best - distance && stop >= floor && (stop == best
                - distance || stop == floor)
            &&& !u.reached_1r ==> u.stop == t.stop
        }),
    decreases prices.len(),
{
    let head = prices.drop_last();
    let price = prices[prices.len() - 1];
    let before = trail_run(t, side, entry, breakeven, distance, head);
    if head.len() > 0 {
        assert forall|i: int| 0 <= i < head.len() implies level_fits(
            side,
            #[trigger] head[i],
            distance,
        ) by {
            assert(head[i] == prices[i]);
        }
        stop_trails_the_best_price(t, side, entry, breakeven, distance, head);
        if before.best != t.best {
            let i = choose|i: int| 0 <= i < head.len() && #[trigger] head[i] == before.best;
            assert(prices[i] == before.best);
        }
    }
    assert(level_fits(side, before.best, distance));
    let u = before.after(side, entry, breakeven, distance, price);
    assert(u == trail_run(t, side, entry, breakeven, distance, prices));
    assert(u.best == before.best || prices[prices.len() - 1] == u.best);
    assert forall|i: int| 0 <= i < prices.len() implies seen(side, u.best as int) >= seen(
        side,
        #[trigger] prices[i] as int,
    ) by {
        if i < head.len() {
            assert(head[i] == prices[i]);
        }
    }
}

/// A stop is hit by a price no better than it, a target by one no worse.
pub proof fn stops_lie_below_and_targets_above(side: PositionSide, level: i64, price: i64)
    ensures
        stop_hit(side, level, price) <==> seen(side, price as int) <= seen(side, level as int),
        target_hit(side, level, price) <==> seen(side, price as int) >= seen(side, level as int),
{
}

} // verus!
