//! Error taxonomy of the pipeline. Every failure is recovered at the
//! smallest possible scope: per event, per tick, or per executor; none of
//! these errors ever crosses a task boundary.

use vstd::prelude::*;

verus! {

/// A malformed event could not be folded into engine state. The event is
/// dropped and the engine's state is exactly what it was before.
#[derive(Clone, Debug, PartialEq, Eq)]
pub enum StateUpdateError {
    /// The event's timestamp falls before the bucket currently being
    /// aggregated; folding it would rewrite closed history.
    Stale,
    /// The event was an upstream `Error` surfaced inside the stream; it
    /// carries no trade and is counted, not folded.
    Upstream(String),
}

/// The strategy input could not be assembled this tick: at least one
/// registered engine's slot stayed empty. The tick yields no actions.
#[derive(Clone, Copy, Debug, PartialEq, Eq, Structural)]
pub enum BuildError {
    IncompleteInput,
}

/// One executor's side effect failed. Logged and counted per executor,
/// never propagated, never blocking other executors or later ticks.
#[derive(Clone, Debug, PartialEq, Eq)]
pub enum ExecutionError {
    Rejected(String),
}

/// The trade carried by an upstream message could not be normalized.
#[derive(Clone, Copy, Debug, PartialEq, Eq, Structural)]
pub enum TradeParseError {
    /// A price or size field is not an unsigned decimal that fits the
    /// fixed-point range.
    BadNumber,
    /// A timestamp field is not a well-formed point in time.
    BadTimestamp,
}

} // verus!
