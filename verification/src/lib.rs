//! Decision core of a live opening-range-breakout trading runner.
//!
//! Everything here is computed from plain values: what was asked of the broker, what came
//! back, what time it is.  The callers perform the input and output.

pub mod actor;
pub mod armed;
pub mod broker;
pub mod candles;
pub mod canonical;
pub mod clock;
pub mod close;
pub mod config;
pub mod day;
pub mod double;
pub mod entry;
pub mod execution_state;
pub mod exit;
pub mod feeds;
pub mod journal;
pub mod manage;
pub mod nav_gate;
pub mod orb_fvg;
pub mod orb_vwap_pullback;
pub mod order_guard;
pub mod poll;
pub mod position_lock;
pub mod preflight;
pub mod quotes;
pub mod records;
pub mod restart;
pub mod runner_state;
pub mod session;
pub mod signals;
pub mod take_profit;
pub mod text;
pub mod ticks;
pub mod trade_gate;
pub mod trade_record;
pub mod trailing;
pub mod types;
