//! A pluggable pipeline for real-time decision-making over streaming market
//! events: collectors feed domain events into per-source aggregated state,
//! a strategy periodically samples that state and emits actions, and
//! executors consume the actions. This crate holds the verified core: the
//! event and candle model, the state engine, the input builder and strategy,
//! executor fan-out, routing, and the cancellation / shutdown state machine.
//! Asynchronous plumbing (sockets, channels, timers) lives outside, in the
//! hosting program, which drives these functions from its tasks.

pub mod candle;
pub mod engine;
pub mod executor;
pub mod metrics;
pub mod msg;
pub mod orchestrator;
pub mod output;
pub mod strategy;
pub mod collectors;
pub mod decimal;
pub mod errors;
pub mod event;
