//! Bounded System One decision runtime: the latency budget decisions run in.

use vstd::prelude::*;
use core::time::Duration;
use crate::time::{duration_as_nanos, duration_from_millis, duration_nanos};

verus! {

/// The shortest latency budget a decision may have, 70 ms.
pub const MIN_DECISION_LATENCY_NANOS: u128 = 70_000_000;

/// The longest latency budget a decision may have, 500 ms.
pub const MAX_DECISION_LATENCY_NANOS: u128 = 500_000_000;

/// 70 ms.
pub fn min_decision_latency() -> (r: Duration)
    ensures
        duration_as_nanos(r) == MIN_DECISION_LATENCY_NANOS,
{
    duration_from_millis(70)
}

/// 500 ms.
pub fn max_decision_latency() -> (r: Duration)
    ensures
        duration_as_nanos(r) == MAX_DECISION_LATENCY_NANOS,
{
    duration_from_millis(500)
}

#[derive(Debug, Clone, Copy, PartialEq, Eq, Structural)]
pub enum DecisionError {
    /// The budget leaves the 70 ms to 500 ms range or its ends are swapped.
    LatencyOutOfBounds,
}

/// A latency range within 70 ms and 500 ms whose minimum does not exceed
/// its maximum.
pub open spec fn latency_bounds_ok(minimum_nanos: u128, maximum_nanos: u128) -> bool {
    MIN_DECISION_LATENCY_NANOS <= minimum_nanos <= maximum_nanos <= MAX_DECISION_LATENCY_NANOS
}

pub fn latency_bounds_valid(minimum_nanos: u128, maximum_nanos: u128) -> (r: bool)
    ensures
        r == latency_bounds_ok(minimum_nanos, maximum_nanos),
{
    MIN_DECISION_LATENCY_NANOS <= minimum_nanos && minimum_nanos <= maximum_nanos
        && maximum_nanos <= MAX_DECISION_LATENCY_NANOS
}

/// How long a decision may take: at least `minimum`, at most `maximum`.
#[derive(Debug, Clone, Copy, PartialEq, Eq)]
pub struct LatencyBudget {
    pub minimum: Duration,
    pub maximum: Duration,
}

impl LatencyBudget {
    /// Accepts the range when `latency_bounds_valid` does for its lengths
    /// in nanoseconds.
    pub fn new(minimum: Duration, maximum: Duration) -> (r: Result<Self, DecisionError>)
        ensures
            latency_bounds_ok(duration_as_nanos(minimum), duration_as_nanos(maximum)) ==> r
                == Ok::<Self, DecisionError>((LatencyBudget { minimum, maximum })),
            !latency_bounds_ok(duration_as_nanos(minimum), duration_as_nanos(maximum)) ==> r
                == Err::<Self, DecisionError>(DecisionError::LatencyOutOfBounds),
    {
        if !latency_bounds_valid(duration_nanos(&minimum), duration_nanos(&maximum)) {
            return Err(DecisionError::LatencyOutOfBounds);
        }
        Ok(Self { minimum, maximum })
    }

    /// The widest budget: 70 ms to 500 ms.
    pub fn widest() -> (r: Self)
        ensures
            duration_as_nanos(r.minimum) == MIN_DECISION_LATENCY_NANOS,
            duration_as_nanos(r.maximum) == MAX_DECISION_LATENCY_NANOS,
    {
        Self { minimum: min_decision_latency(), maximum: max_decision_latency() }
    }
}

pub struct DecisionMarker;

} // verus!
