//! Positions as they are entered, saved and picked up again.

use crate::clock::LocalDateTime;
use crate::text::same_text;
use crate::types::{ActivePosition, Position, PositionSide};
use vstd::prelude::*;

verus! {

/// Where a position is given up, and where it has earned enough.
#[derive(Debug, Clone, Copy, PartialEq, Eq, Structural)]
pub struct Bracket {
    pub stop_loss: i64,
    pub take_profit: i64,
}

/// The bracket around a price: the stop `risk` away against the position, the target `reward` away
/// in its favour.
pub open spec fn around(side: PositionSide, price: int, risk: int, reward: int) -> (int, int) {
    match side {
        PositionSide::Long => (price - risk, price + reward),
        PositionSide::Short => (price + risk, price - reward),
    }
}

/// The distance between two prices.
pub open spec fn distance(a: int, b: int) -> int {
    if a >= b {
        a - b
    } else {
        b - a
    }
}

/// The distance between two prices.
pub fn price_distance(a: i64, b: i64) -> (r: i64)
    requires
        distance(a as int, b as int) <= i64::MAX,
    ensures
        r == distance(a as int, b as int),
{
    if a >= b {
        a - b
    } else {
        b - a
    }
}

/// The bracket around a price.
pub fn bracket_around(side: PositionSide, price: i64, risk: i64, reward: i64) -> (r: Bracket)
    requires
        i64::MIN <= around(side, price as int, risk as int, reward as int).0 <= i64::MAX,
        i64::MIN <= around(side, price as int, risk as int, reward as int).1 <= i64::MAX,
    ensures
        (r.stop_loss as int, r.take_profit as int) == around(
            side,
            price as int,
            risk as int,
            reward as int,
        ),
{
    match side {
        PositionSide::Long => Bracket { stop_loss: price - risk, take_profit: price + reward },
        PositionSide::Short => Bracket { stop_loss: price + risk, take_profit: price - reward },
    }
}

/// The price at which a restart takes a position to have been entered: the average that the
/// balance gives, else the fill that the broker reports, else the price that was submitted.
pub open spec fn restart_entry_price(
    balance_avg: Option<i64>,
    execution_fill_price: Option<i64>,
    submitted_price: i64,
) -> i64 {
    match (balance_avg, execution_fill_price) {
        (Some(avg), _) if avg > 0 => avg,
        (_, Some(fill)) if fill > 0 => fill,
        _ => submitted_price,
    }
}

/// The price at which a restart takes a position to have been entered.
pub fn resolve_restart_entry_price(
    balance_avg: Option<i64>,
    execution_fill_price: Option<i64>,
    submitted_price: i64,
) -> (r: i64)
    ensures
        r == restart_entry_price(balance_avg, execution_fill_price, submitted_price),
{
    if let Some(avg) = balance_avg {
        if avg > 0 {
            return avg;
        }
    }
    if let Some(fill) = execution_fill_price {
        if fill > 0 {
            return fill;
        }
    }
    submitted_price
}

/// A text that may be missing, as a text.
pub open spec fn text_or_blank(t: Option<String>) -> Seq<char> {
    match t {
        Some(s) => s@,
        None => Seq::empty(),
    }
}

/// A text that may be missing, as a text.
pub fn or_blank(t: &Option<String>) -> (r: String)
    ensures
        r@ == text_or_blank(*t),
{
    match t {
        Some(s) => s.clone(),
        None => {
            proof {
                reveal_strlit("");
            }
            let blank: String = "".to_owned();
            assert(blank@ =~= Seq::<char>::empty());
            blank
        },
    }
}

impl ActivePosition {
    /// The side that the record stands for; a record that says neither is long.
    pub open spec fn of_side(self) -> PositionSide {
        if self.side@ == "Short"@ {
            PositionSide::Short
        } else {
            PositionSide::Long
        }
    }

    /// The side that the record stands for.
    pub fn position_side(&self) -> (r: PositionSide)
        ensures
            r == self.of_side(),
    {
        if same_text(self.side.as_str(), "Short") {
            PositionSide::Short
        } else {
            PositionSide::Long
        }
    }

    /// What the position risked: as recorded, else the distance to its stop; at least 1.
    pub open spec fn risked(self) -> int {
        let risk = match self.original_risk {
            Some(r) => r as int,
            None => distance(self.entry_price as int, self.stop_loss as int),
        };
        if risk < 1 {
            1
        } else {
            risk
        }
    }

    /// What the position risked.
    pub fn restart_risk(&self) -> (r: i64)
        requires
            self.risked() <= i64::MAX,
        ensures
            r == self.risked(),
    {
        let risk: i64 = match self.original_risk {
            Some(r) => r,
            None => price_distance(self.entry_price, self.stop_loss),
        };
        if risk < 1 {
            1
        } else {
            risk
        }
    }

    /// The price that the strategy meant to enter at.
    pub open spec fn intended(self) -> i64 {
        match self.trigger_price {
            Some(p) => p,
            None => self.entry_price,
        }
    }

    /// The price that the strategy meant to enter at.
    pub fn intended_price(&self) -> (r: i64)
        ensures
            r == self.intended(),
    {
        match self.trigger_price {
            Some(p) => p,
            None => self.entry_price,
        }
    }
}

/// The bracket that a restart puts around the price at which a saved position was entered.
/// `reward` is the target's distance that belongs to the saved risk.
pub fn restore_bracket_from_saved(
    saved: &ActivePosition,
    side: PositionSide,
    restored_entry: i64,
    reward: i64,
) -> (r: Bracket)
    requires
        saved.risked() <= i64::MAX,
        i64::MIN <= around(side, restored_entry as int, saved.risked(), reward as int).0
            <= i64::MAX,
        i64::MIN <= around(side, restored_entry as int, saved.risked(), reward as int).1
            <= i64::MAX,
    ensures
        (r.stop_loss as int, r.take_profit as int) == around(
            side,
            restored_entry as int,
            saved.risked(),
            reward as int,
        ),
{
    let risk: i64 = saved.restart_risk();
    bracket_around(side, restored_entry, risk, reward)
}

/// A position picked up after a restart.  It counts on no take-profit order.
pub fn build_restart_restored_position(
    saved: &ActivePosition,
    side: PositionSide,
    quantity: u64,
    entry_price: i64,
    stop_loss: i64,
    take_profit: i64,
    best_price: i64,
    original_sl: i64,
    reached_1r: bool,
) -> (r: Position)
    ensures
        restored_like(r, *saved, side, quantity, entry_price),
        r.stop_loss == stop_loss,
        r.take_profit == take_profit,
        r.best_price == best_price,
        r.original_sl == original_sl,
        r.reached_1r == reached_1r,
{
    Position {
        side,
        entry_price,
        stop_loss,
        take_profit,
        entry_time: saved.entry_time.time,
        quantity,
        tp_order_no: None,
        tp_krx_orgno: None,
        tp_limit_price: None,
        reached_1r,
        best_price,
        original_sl,
        sl_triggered_tick: false,
        intended_entry_price: saved.intended_price(),
        order_to_fill_ms: 0,
        signal_id: or_blank(&saved.signal_id),
    }
}

/// What every position picked up after a restart has in common, whatever its levels are.
pub open spec fn restored_like(
    r: Position,
    saved: ActivePosition,
    side: PositionSide,
    quantity: u64,
    entry_price: i64,
) -> bool {
    &&& r.side == side
    &&& r.entry_price == entry_price
    &&& r.quantity == quantity
    &&& r.entry_time == saved.entry_time.time
    &&& r.tp_order_no is None
    &&& r.tp_krx_orgno is None
    &&& r.tp_limit_price is None
    &&& !r.sl_triggered_tick
    &&& r.intended_entry_price == saved.intended()
    &&& r.order_to_fill_ms == 0
    &&& r.signal_id@ == text_or_blank(saved.signal_id)
}

/// What an entry was ordered for.
#[derive(Debug, Clone)]
pub struct EntryTerms {
    pub stock_code: String,
    pub side: PositionSide,
    /// The price of the signal.
    pub trigger_price: i64,
    /// The stop of the signal.
    pub stop_loss: i64,
    pub take_profit: i64,
    pub or_high: i64,
    pub or_low: i64,
    pub stage_name: String,
    pub signal_id: String,
    pub entry_mode: String,
}

impl EntryTerms {
    /// What the entry risks: the distance from the signal to its stop.
    pub open spec fn risk(self) -> int {
        distance(self.trigger_price as int, self.stop_loss as int)
    }

    /// What the record of an entry takes over from its terms.
    pub open spec fn recorded_in(self, r: ActivePosition) -> bool {
        &&& r.stock_code@ == self.stock_code@
        &&& r.side@ == self.side.name()
        &&& r.or_high == Some(self.or_high)
        &&& r.or_low == Some(self.or_low)
        &&& (r.or_stage matches Some(s) && s@ == self.stage_name@)
        &&& r.or_source is None
        &&& r.trigger_price == Some(self.trigger_price)
        &&& (r.original_risk matches Some(risk) && risk == self.risk())
        &&& (r.signal_id matches Some(s) && s@ == self.signal_id@)
        &&& (r.entry_mode matches Some(s) && s@ == self.entry_mode@)
        &&& !r.reached_1r
        &&& !r.manual_intervention_required
        &&& r.last_exit_order_no@.len() == 0
        &&& r.last_exit_reason@.len() == 0
    }

    /// The record of an entry whose order is out.
    pub fn pending_record(
        &self,
        limit_price: i64,
        quantity: u64,
        entry_time: LocalDateTime,
        order_no: &str,
        krx_orgno: &str,
    ) -> (r: ActivePosition)
        requires
            self.risk() <= i64::MAX,
        ensures
            self.recorded_in(r),
            r.entry_price == limit_price,
            r.best_price == limit_price,
            r.stop_loss == self.stop_loss,
            r.original_sl == self.stop_loss,
            r.take_profit == self.take_profit,
            r.quantity == quantity as i64,
            r.entry_time == entry_time,
            r.tp_order_no@.len() == 0,
            r.tp_krx_orgno@.len() == 0,
            r.execution_state@ == "entry_pending"@,
            r.pending_entry_order_no@ == order_no@,
            r.pending_entry_krx_orgno@ == krx_orgno@,
    {
        proof {
            reveal_strlit("");
        }
        ActivePosition {
            stock_code: self.stock_code.clone(),
            side: self.side.label().to_owned(),
            entry_price: limit_price,
            stop_loss: self.stop_loss,
            take_profit: self.take_profit,
            quantity: quantity as i64,
            tp_order_no: "".to_owned(),
            tp_krx_orgno: "".to_owned(),
            entry_time,
            original_sl: self.stop_loss,
            reached_1r: false,
            best_price: limit_price,
            or_high: Some(self.or_high),
            or_low: Some(self.or_low),
            or_stage: Some(self.stage_name.clone()),
            or_source: None,
            trigger_price: Some(self.trigger_price),
            original_risk: Some(price_distance(self.trigger_price, self.stop_loss)),
            signal_id: Some(self.signal_id.clone()),
            entry_mode: Some(self.entry_mode.clone()),
            manual_intervention_required: false,
            execution_state: "entry_pending".to_owned(),
            last_exit_order_no: "".to_owned(),
            last_exit_reason: "".to_owned(),
            pending_entry_order_no: order_no.to_owned(),
            pending_entry_krx_orgno: krx_orgno.to_owned(),
        }
    }

    /// The bracket around the price at which the entry was filled: the signal's risk, moved along.
    pub fn entry_bracket(&self, fill_price: i64, reward: i64) -> (r: Bracket)
        requires
            self.risk() <= i64::MAX,
            i64::MIN <= around(self.side, fill_price as int, self.risk(), reward as int).0
                <= i64::MAX,
            i64::MIN <= around(self.side, fill_price as int, self.risk(), reward as int).1
                <= i64::MAX,
        ensures
            (r.stop_loss as int, r.take_profit as int) == around(
                self.side,
                fill_price as int,
                self.risk(),
                reward as int,
            ),
    {
        let risk: i64 = price_distance(self.trigger_price, self.stop_loss);
        bracket_around(self.side, fill_price, risk, reward)
    }

    /// The position of an entry that was filled.  `tp` is the take-profit order that protects it:
    /// its number, the exchange's branch and its price.
    pub fn opened_position(
        &self,
        fill_price: i64,
        quantity: u64,
        bracket: Bracket,
        entry_time: LocalDateTime,
        order_to_fill_ms: i64,
        tp: &Option<(String, String, i64)>,
    ) -> (r: Position)
        ensures
            r.side == self.side,
            r.entry_price == fill_price,
            r.best_price == fill_price,
            r.stop_loss == bracket.stop_loss,
            r.original_sl == bracket.stop_loss,
            r.take_profit == bracket.take_profit,
            r.entry_time == entry_time.time,
            r.quantity == quantity,
            !r.reached_1r,
            !r.sl_triggered_tick,
            r.intended_entry_price == self.trigger_price,
            r.order_to_fill_ms == order_to_fill_ms,
            r.signal_id@ == self.signal_id@,
            protected_by(r, *tp),
    {
        let (no, orgno, limit): (Option<String>, Option<String>, Option<i64>) = match tp {
            Some(t) => (Some(t.0.clone()), Some(t.1.clone()), Some(t.2)),
            None => (None, None, None),
        };
        Position {
            side: self.side,
            entry_price: fill_price,
            stop_loss: bracket.stop_loss,
            take_profit: bracket.take_profit,
            entry_time: entry_time.time,
            quantity,
            tp_order_no: no,
            tp_krx_orgno: orgno,
            tp_limit_price: limit,
            reached_1r: false,
            best_price: fill_price,
            original_sl: bracket.stop_loss,
            sl_triggered_tick: false,
            intended_entry_price: self.trigger_price,
            order_to_fill_ms,
            signal_id: self.signal_id.clone(),
        }
    }

    /// The record of an entry that was filled.
    pub fn open_record(
        &self,
        fill_price: i64,
        quantity: u64,
        bracket: Bracket,
        entry_time: LocalDateTime,
        tp: &Option<(String, String, i64)>,
    ) -> (r: ActivePosition)
        requires
            self.risk() <= i64::MAX,
        ensures
            self.recorded_in(r),
            r.entry_price == fill_price,
            r.best_price == fill_price,
            r.stop_loss == bracket.stop_loss,
            r.original_sl == bracket.stop_loss,
            r.take_profit == bracket.take_profit,
            r.quantity == quantity as i64,
            r.entry_time == entry_time,
            match *tp {
                Some(t) => r.tp_order_no@ == t.0@ && r.tp_krx_orgno@ == t.1@,
                None => r.tp_order_no@.len() == 0 && r.tp_krx_orgno@.len() == 0,
            },
            r.execution_state@ == "open"@,
            r.pending_entry_order_no@.len() == 0,
            r.pending_entry_krx_orgno@.len() == 0,
    {
        proof {
            reveal_strlit("");
        }
        let (no, orgno): (String, String) = match tp {
            Some(t) => (t.0.clone(), t.1.clone()),
            None => ("".to_owned(), "".to_owned()),
        };
        ActivePosition {
            stock_code: self.stock_code.clone(),
            side: self.side.label().to_owned(),
            entry_price: fill_price,
            stop_loss: bracket.stop_loss,
            take_profit: bracket.take_profit,
            quantity: quantity as i64,
            tp_order_no: no,
            tp_krx_orgno: orgno,
            entry_time,
            original_sl: bracket.stop_loss,
            reached_1r: false,
            best_price: fill_price,
            or_high: Some(self.or_high),
            or_low: Some(self.or_low),
            or_stage: Some(self.stage_name.clone()),
            or_source: None,
            trigger_price: Some(self.trigger_price),
            original_risk: Some(price_distance(self.trigger_price, self.stop_loss)),
            signal_id: Some(self.signal_id.clone()),
            entry_mode: Some(self.entry_mode.clone()),
            manual_intervention_required: false,
            execution_state: "open".to_owned(),
            last_exit_order_no: "".to_owned(),
            last_exit_reason: "".to_owned(),
            pending_entry_order_no: "".to_owned(),
            pending_entry_krx_orgno: "".to_owned(),
        }
    }
}

/// The take-profit order that a position counts on.
pub open spec fn protected_by(p: Position, tp: Option<(String, String, i64)>) -> bool {
    match tp {
        Some(t) => {
            &&& (p.tp_order_no matches Some(no) && no@ == t.0@)
            &&& (p.tp_krx_orgno matches Some(orgno) && orgno@ == t.1@)
            &&& p.tp_limit_price == Some(t.2)
        },
        None => p.tp_order_no is None && p.tp_krx_orgno is None && p.tp_limit_price is None,
    }
}

/// A restart that picks up an entry from the record made when its order went out, or from the one
/// made when it was filled, puts the same bracket around the same price as the entry itself.
pub proof fn restart_keeps_the_bracket(
    terms: EntryTerms,
    record: ActivePosition,
    fill_price: int,
    reward: int,
)
    requires
        terms.recorded_in(record),
        terms.risk() >= 1,
    ensures
        record.risked() == terms.risk(),
        record.of_side() == terms.side,
        around(record.of_side(), fill_price, record.risked(), reward) == around(
            terms.side,
            fill_price,
            terms.risk(),
            reward,
        ),
{
    reveal_strlit("Short");
    reveal_strlit("Long");
    assert("Short"@.len() == 5);
    assert("Long"@.len() == 4);
}

/// A bracket has its stop on the losing side and its target on the winning side of the price, each
/// as far away as it was asked for.
pub proof fn brackets_stand_on_both_sides(side: PositionSide, price: int, risk: int, reward: int)
    ensures
        ({
            let (stop, target) = around(side, price, risk, reward);
            match side {
                PositionSide::Long => price - stop == risk && target - price == reward,
                PositionSide::Short => stop - price == risk && price - target == reward,
            }
        }),
{
}

/// A distance is what is to be added to the lower of two prices to come to the higher.
pub proof fn distances_lead_from_one_to_the_other(a: int, b: int)
    ensures
        distance(a, b) >= 0,
        a <= b ==> a + distance(a, b) == b,
        b <= a ==> b + distance(a, b) == a,
{
}

/// The price that a restart takes a position to have been entered at is the balance's where that
/// is positive, else the broker's where that is positive, and else what was submitted.
pub proof fn best_known_entry_price_counts(avg: i64, fill: i64, none: Option<i64>, submitted: i64)
    requires
        none is None,
    ensures
        avg > 0 ==> restart_entry_price(Some(avg), Some(fill), submitted) == avg
            && restart_entry_price(Some(avg), none, submitted) == avg,
        avg <= 0 && fill > 0 ==> restart_entry_price(Some(avg), Some(fill), submitted) == fill,
        fill > 0 ==> restart_entry_price(none, Some(fill), submitted) == fill,
        avg <= 0 && fill <= 0 ==> restart_entry_price(Some(avg), Some(fill), submitted)
            == submitted,
        avg <= 0 ==> restart_entry_price(Some(avg), none, submitted) == submitted,
        fill <= 0 ==> restart_entry_price(none, Some(fill), submitted) == submitted,
        restart_entry_price(none, none, submitted) == submitted,
{
}

/// What a saved position risked is what was recorded; without a record it is how far the stop lies
/// from the entry; and it is never less than one.
pub proof fn saved_risk_is_the_recorded_one(saved: ActivePosition)
    ensures
        saved.risked() >= 1,
        saved.original_risk matches Some(r) ==> (r >= 1 ==> saved.risked() == r) && (r < 1
            ==> saved.risked() == 1),
        saved.original_risk is None && saved.entry_price > saved.stop_loss ==> saved.risked()
            == saved.entry_price - saved.stop_loss,
        saved.original_risk is None && saved.entry_price < saved.stop_loss ==> saved.risked()
            == saved.stop_loss - saved.entry_price,
        saved.original_risk is None && saved.entry_price == saved.stop_loss ==> saved.risked() == 1,
{
}

/// A saved position was meant to be entered at the price that triggered it, and where that was not
/// recorded, at the one it was entered at.  It is short only where its record says so.
pub proof fn saved_intention_is_the_trigger(saved: ActivePosition)
    ensures
        saved.trigger_price matches Some(p) ==> saved.intended() == p,
        saved.trigger_price is None ==> saved.intended() == saved.entry_price,
        saved.of_side() is Short <==> saved.side@ == "Short"@,
        saved.signal_id matches Some(s) ==> text_or_blank(saved.signal_id) == s@,
        saved.signal_id is None ==> text_or_blank(saved.signal_id).len() == 0,
{
}

/// A position picked up after a restart is the saved one in the quantity and at the price that was
/// found, and nothing protects it yet.
pub proof fn picked_up_positions_are_bare(
    p: Position,
    saved: ActivePosition,
    side: PositionSide,
    quantity: u64,
    entry_price: i64,
)
    requires
        restored_like(p, saved, side, quantity, entry_price),
    ensures
        p.quantity == quantity,
        p.entry_price == entry_price,
        p.side == side,
        p.entry_time == saved.entry_time.time,
        p.tp_order_no is None && p.tp_krx_orgno is None && p.tp_limit_price is None,
        !p.sl_triggered_tick,
        p.order_to_fill_ms == 0,
        saved.trigger_price matches Some(t) ==> p.intended_entry_price == t,
        saved.trigger_price is None ==> p.intended_entry_price == saved.entry_price,
        saved.signal_id matches Some(s) ==> p.signal_id@ == s@,
        saved.signal_id is None ==> p.signal_id@.len() == 0,
{
}

/// The record of an entry names its stock, side, signal and stage, keeps the opening range and the
/// risk between the signal and its stop, and says neither that the position has earned its risk nor
/// that a person is needed nor that an exit was ordered.
pub proof fn entry_records_keep_the_terms(terms: EntryTerms, record: ActivePosition)
    requires
        terms.recorded_in(record),
    ensures
        record.stock_code@ == terms.stock_code@,
        terms.side is Long ==> record.side@ == "Long"@,
        terms.side is Short ==> record.side@ == "Short"@,
        record.or_high == Some(terms.or_high),
        record.or_low == Some(terms.or_low),
        record.or_stage is Some && record.or_stage->0@ == terms.stage_name@,
        record.or_source is None,
        record.trigger_price == Some(terms.trigger_price),
        record.original_risk is Some,
        terms.trigger_price >= terms.stop_loss ==> record.original_risk->0 == terms.trigger_price
            - terms.stop_loss,
        terms.trigger_price <= terms.stop_loss ==> record.original_risk->0 == terms.stop_loss
            - terms.trigger_price,
        record.signal_id is Some && record.signal_id->0@ == terms.signal_id@,
        record.entry_mode is Some && record.entry_mode->0@ == terms.entry_mode@,
        !record.reached_1r,
        !record.manual_intervention_required,
        record.last_exit_order_no@.len() == 0,
        record.last_exit_reason@.len() == 0,
{
}

/// A position counts on a take-profit order exactly where there is one, and then on its number, its
/// branch and its price.
pub proof fn protection_is_the_orders(p: Position, tp: Option<(String, String, i64)>)
    requires
        protected_by(p, tp),
    ensures
        p.tp_order_no is Some <==> tp is Some,
        p.tp_krx_orgno is Some <==> tp is Some,
        p.tp_limit_price is Some <==> tp is Some,
        match tp {
            Some((no, orgno, price)) => p.tp_order_no->0@ == no@ && p.tp_krx_orgno->0@ == orgno@
                && p.tp_limit_price->0 == price,
            None => true,
        },
{
}

} // verus!
