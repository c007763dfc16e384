//! Memory-pressure levels from Grand Central Dispatch events.

use vstd::prelude::*;

verus! {

/// System memory pressure, from least to most severe.
#[derive(Debug, Clone, Copy, PartialEq, Eq, PartialOrd, Ord, Structural)]
pub enum MemoryPressure {
    Normal,
    Warning,
    Critical,
}

pub const PRESSURE_NORMAL: usize = 0x01;

pub const PRESSURE_WARNING: usize = 0x02;

pub const PRESSURE_CRITICAL: usize = 0x04;

/// The most severe level whose flag is set; `Normal` when none is.
pub open spec fn pressure_of(flags: usize) -> MemoryPressure {
    if flags & PRESSURE_CRITICAL != 0 {
        MemoryPressure::Critical
    } else if flags & PRESSURE_WARNING != 0 {
        MemoryPressure::Warning
    } else {
        MemoryPressure::Normal
    }
}

pub fn decode_pressure(flags: usize) -> (r: MemoryPressure)
    ensures
        r == pressure_of(flags),
{
    if flags & PRESSURE_CRITICAL != 0 {
        MemoryPressure::Critical
    } else if flags & PRESSURE_WARNING != 0 {
        MemoryPressure::Warning
    } else {
        MemoryPressure::Normal
    }
}

/// Receives pressure levels; implemented by the runtime's users.
pub trait PressureHandler: Send + Sync + 'static {
    fn on_pressure(&self, pressure: MemoryPressure);
}

#[derive(Debug, Clone, Copy, PartialEq, Eq, Structural)]
pub enum PressureMonitorError {
    SourceCreation,
}

/// Hands the level that `flags` encode to the handler, once.
pub fn dispatch_pressure<H: PressureHandler>(handler: &H, flags: usize)
    ensures
        call_ensures(H::on_pressure, (handler, pressure_of(flags)), ()),
{
    let level = decode_pressure(flags);
    let notify = H::on_pressure;
    notify(handler, level);
}

} // verus!
