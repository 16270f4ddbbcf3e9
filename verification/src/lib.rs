//! Market-data fan-out and order-entry latency measurement.
//!
//! The crate holds the decisions of a small trading bot: how inbound price
//! envelopes become updates, how updates are buffered for each subscriber,
//! how the market-data connection is supervised, how the simulated
//! order-entry backend answers, and how the latency benchmark sequences its
//! orders. Everything that waits (sockets, timers, tasks) is left to the
//! caller, which performs the commands these state machines issue and hands
//! back what happened.

pub mod clock;
pub mod config;
pub mod number;
pub mod update;
pub mod distributor;
pub mod fix;
pub mod latency;
pub mod price_stream;
