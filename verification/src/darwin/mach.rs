//! Mach host memory telemetry.

use vstd::prelude::*;
use crate::text::{push_signed_decimal, push_str, signed_decimal_chars, string_from_chars};

verus! {

broadcast use vstd::string::group_string_axioms;

#[derive(Debug, Clone, Copy, PartialEq, Eq)]
pub enum MachTelemetryError {
    Kernel { operation: &'static str, status: i32 },
    CounterOverflow { counter: &'static str },
}

impl MachTelemetryError {
    pub fn message(&self) -> (r: String)
        ensures
            r@ == match *self {
                MachTelemetryError::Kernel { operation, status } => "Mach "@ + operation@
                    + " failed with kernel status "@ + signed_decimal_chars(status as int),
                MachTelemetryError::CounterOverflow { counter } =>
                    "memory counter overflowed while converting "@ + counter@ + " pages"@,
            },
    {
        let mut out: Vec<char> = Vec::new();
        match self {
            MachTelemetryError::Kernel { operation, status } => {
                push_str(&mut out, "Mach ");
                push_str(&mut out, operation);
                push_str(&mut out, " failed with kernel status ");
                push_signed_decimal(&mut out, *status as i64);
            },
            MachTelemetryError::CounterOverflow { counter } => {
                push_str(&mut out, "memory counter overflowed while converting ");
                push_str(&mut out, counter);
                push_str(&mut out, " pages");
            },
        }
        string_from_chars(&out)
    }
}

/// Page counts of the host virtual-memory system.
#[derive(Debug, Clone, Copy, PartialEq, Eq, Structural)]
pub struct VmPageCounters {
    pub free: u64,
    pub active: u64,
    pub inactive: u64,
    pub wired: u64,
    pub compressed: u64,
}

/// The kernel queries that telemetry needs; implemented by the host binding.
pub trait MachHost {
    /// The VM page size in bytes.
    fn page_size(&self) -> Result<u64, MachTelemetryError>;

    /// An atomic snapshot of the host VM counters.
    fn vm_counters(&self) -> Result<VmPageCounters, MachTelemetryError>;
}

/// The host's own Mach interface.
#[derive(Debug, Clone, Copy)]
pub struct NativeMachHost;

} // verus!
