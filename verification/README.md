# live_runner

The decisions of a trading runner that enters on a break of the opening range and a fair value gap,
and looks after the position until it is flat.  Every decision is a verified function of plain
values: what the broker replied, what the market shows, what time it is.

* `src/` is the verified library.  A conversation with the broker is a state machine: a function
  `next` from a state and a reply to the next state, an executable `step` proved equal to it, and
  laws over all runs.  The main ones:
  * `poll`, `armed`, `entry`: from the candles to a signal, a watch over it, and an order;
  * `manage`, `trailing`, `take_profit`, `close`, `exit`: from an open position to an empty balance;
  * `restart`, `records`: what is picked up again after a restart;
  * `runner_state`, `position_lock`, `actor`, `day`: what the runner shows, who may enter, the day;
  * `candles`, `canonical`, `feeds`, `broker`, `quotes`: reading what others sent;
  * `orb_fvg`, `orb_vwap_pullback`, `nav_gate`, `preflight`: the strategies and what holds them back.
* `app/` talks to the broker, the store and the clock, and does the floating point arithmetic.
* `tests/` runs the library on given values.

Calls into `chrono` and `serde_json` stand in `clock` and `feeds`, and one of the standard library in
`text`.  The contracts of those calls are believed; everything else is proved.
