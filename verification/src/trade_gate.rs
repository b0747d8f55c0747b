//! How many trades the whole system may make in a day.

use vstd::prelude::*;

verus! {

/// The day's trades, counted over all stocks.
#[derive(Debug, Clone, Copy, PartialEq, Eq, Structural)]
pub struct GlobalTradeGate {
    /// The day that was counted last, as a day number.
    pub date: Option<i32>,
    /// The trades of that day.
    pub count: usize,
    /// The most trades that a day may have.
    pub max: usize,
}

impl Default for GlobalTradeGate {
    /// Nothing counted yet, and no trade allowed.
    fn default() -> (r: Self)
        ensures
            r == (GlobalTradeGate { date: None, count: 0, max: 0 }),
    {
        GlobalTradeGate { date: None, count: 0, max: 0 }
    }
}

impl GlobalTradeGate {
    /// At least one trade a day is allowed.
    pub open spec fn valid(self) -> bool {
        self.max >= 1
    }

    /// The trades of `today`.
    pub open spec fn trades_on(self, today: i32) -> usize {
        if self.date == Some(today) {
            self.count
        } else {
            0
        }
    }

    /// The same gate, turned to `today`.
    pub open spec fn turned_to(self, today: i32) -> GlobalTradeGate {
        GlobalTradeGate { date: Some(today), count: self.trades_on(today), max: self.max }
    }

    /// A gate that lets `max` trades a day through, and one at least.
    pub fn new(max: usize) -> (r: Self)
        ensures
            r.valid(),
            r == (GlobalTradeGate {
                date: None,
                count: 0,
                max: if max >= 1 {
                    max
                } else {
                    1
                },
            }),
    {
        GlobalTradeGate {
            date: None,
            count: 0,
            max: if max >= 1 {
                max
            } else {
                1
            },
        }
    }

    fn roll_and_count(&mut self, today: i32) -> (r: usize)
        ensures
            *final(self) == old(self).turned_to(today),
            r == old(self).trades_on(today),
    {
        let same: bool = match self.date {
            Some(d) => d == today,
            None => false,
        };
        if !same {
            self.date = Some(today);
            self.count = 0;
        }
        self.count
    }

    /// Whether another trade may be made today.
    pub fn can_enter(&mut self, today: i32) -> (r: bool)
        ensures
            *final(self) == old(self).turned_to(today),
            r == (old(self).trades_on(today) < old(self).max),
    {
        self.roll_and_count(today) < self.max
    }

    /// Counts one trade.
    pub fn record_trade(&mut self, today: i32)
        requires
            old(self).trades_on(today) < usize::MAX,
        ensures
            *final(self) == (GlobalTradeGate {
                count: (old(self).trades_on(today) + 1) as usize,
                ..old(self).turned_to(today)
            }),
    {
        self.roll_and_count(today);
        self.count = self.count + 1;
    }

    /// The trades of today, and the most that today may have.
    pub fn snapshot(&mut self, today: i32) -> (r: (usize, usize))
        ensures
            *final(self) == old(self).turned_to(today),
            r == (old(self).trades_on(today), old(self).max),
    {
        (self.roll_and_count(today), self.max)
    }
}

/// A gate after a trade was made on each of several days, in their order, wherever it let
/// it through.
pub open spec fn gated_trades(gate: GlobalTradeGate, days: Seq<i32>) -> GlobalTradeGate
    decreases days.len(),
{
    if days.len() == 0 {
        gate
    } else {
        let before = gated_trades(gate, days.drop_last());
        let today = days.last();
        if before.trades_on(today) < before.max {
            GlobalTradeGate {
                count: (before.trades_on(today) + 1) as usize,
                ..before.turned_to(today)
            }
        } else {
            before.turned_to(today)
        }
    }
}

/// Where every trade asks first, no day ever has more trades than it may have.
pub proof fn limit_is_never_exceeded(gate: GlobalTradeGate, days: Seq<i32>)
    requires
        gate.valid(),
        gate.count <= gate.max,
    ensures
        gated_trades(gate, days).count <= gated_trades(gate, days).max,
        gated_trades(gate, days).max == gate.max,
    decreases days.len(),
{
    if days.len() > 0 {
        limit_is_never_exceeded(gate, days.drop_last());
    }
}

/// A new day starts with no trades.
pub proof fn new_day_starts_empty(gate: GlobalTradeGate, today: i32)
    requires
        gate.valid(),
        gate.date != Some(today),
    ensures
        gate.turned_to(today).count == 0,
        gate.trades_on(today) < gate.max,
{
}

/// How many of several days are one and the same, from the end on.
pub open spec fn same_at_the_end(days: Seq<i32>) -> int
    decreases days.len(),
{
    if days.len() <= 1 || days[days.len() - 2] != days.last() {
        if days.len() == 0 {
            0
        } else {
            1
        }
    } else {
        same_at_the_end(days.drop_last()) + 1
    }
}

/// As many trades are let through on a day as it may have, and no more: after any number of
/// requests, those of the last day in a row are all counted until the limit is reached.
pub proof fn trades_are_let_through_up_to_the_limit(max: usize, days: Seq<i32>)
    requires
        max >= 1,
        days.len() > 0,
    ensures
        ({
            let gate = gated_trades(GlobalTradeGate { date: None, count: 0, max }, days);
            &&& gate.date == Some(days.last())
            &&& gate.max == max
            &&& gate.count == (if same_at_the_end(days) <= max {
                same_at_the_end(days)
            } else {
                max as int
            })
        }),
    decreases days.len(),
{
    let start = GlobalTradeGate { date: None, count: 0, max };
    let before = gated_trades(start, days.drop_last());
    if days.len() > 1 {
        trades_are_let_through_up_to_the_limit(max, days.drop_last());
        assert(days.drop_last().last() == days[days.len() - 2]);
        counts_are_positive(days.drop_last());
    } else {
        assert(days.drop_last().len() == 0);
        assert(before == start);
    }
    let today = days.last();
    let seen = if before.date == Some(today) {
        before.count
    } else {
        0
    };
    assert(gated_trades(start, days).count == (if seen < max {
        seen + 1
    } else {
        seen as int
    }));
}

proof fn counts_are_positive(days: Seq<i32>)
    requires
        days.len() > 0,
    ensures
        same_at_the_end(days) >= 1,
    decreases days.len(),
{
    if days.len() > 1 {
        counts_are_positive(days.drop_last());
    }
}

/// A day has the trades that were counted on it, and another day has none.
pub proof fn days_are_counted_apart(gate: GlobalTradeGate, day: i32, other: i32)
    requires
        day != other,
        gate.date == Some(day),
    ensures
        gate.trades_on(day) == gate.count,
        gate.trades_on(other) == 0,
        gate.turned_to(day) == gate,
        gate.turned_to(other) == (GlobalTradeGate { date: Some(other), count: 0, max: gate.max }),
{
}

} // verus!
