//! Zero-swap memory arbitration: the limits the arbiter keeps and how
//! often it samples.

use vstd::prelude::*;
use core::time::Duration;
use crate::time::{duration_as_nanos, duration_nanos};

verus! {

pub const BYTES_PER_GIB: u64 = 1_073_741_824;

/// The GPU wired-memory limit the arbiter keeps, 10 400 MiB.
pub const WIRED_LIMIT_BYTES: u64 = 10_400 * 1_048_576;

#[derive(Debug, Clone, Copy, PartialEq, Eq)]
pub enum ArbiterError {
    ZeroValue { field: &'static str },
}

/// How the arbiter daemon samples: a positive interval and the number of
/// samples it keeps.
#[derive(Debug, Clone, Copy, PartialEq, Eq)]
pub struct DaemonConfig {
    pub sampling_interval: Duration,
    pub history: usize,
}

impl DaemonConfig {
    /// Refuses a zero sampling interval.
    pub fn new(sampling_interval: Duration, history: usize) -> (r: Result<Self, ArbiterError>)
        ensures
            duration_as_nanos(sampling_interval) == 0 ==> r == Err::<Self, ArbiterError>(
                ArbiterError::ZeroValue { field: "sampling_interval" },
            ),
            duration_as_nanos(sampling_interval) != 0 ==> r == Ok::<Self, ArbiterError>(
                (DaemonConfig { sampling_interval, history }),
            ),
    {
        if duration_nanos(&sampling_interval) == 0 {
            return Err(ArbiterError::ZeroValue { field: "sampling_interval" });
        }
        Ok(Self { sampling_interval, history })
    }
}

} // verus!
