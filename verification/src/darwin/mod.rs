//! Darwin kernel and storage facilities: page geometry, uncached model
//! I/O, shared Metal buffers, memory pressure, thread QoS and sysctl.

pub mod direct_io;
pub mod mach;
pub mod metal_buffer;
pub mod pressure;
pub mod qos;
pub mod sysctl;

use vstd::prelude::*;

verus! {

/// Virtual-memory page alignment used by Apple Silicon hosts.
pub const APPLE_SILICON_PAGE_SIZE: usize = 16_384;

/// `length` (at least one byte) rounded up to whole pages, when that fits
/// in `usize`.
pub open spec fn page_rounded(length: usize) -> Option<usize> {
    let n = if length == 0 { 1 } else { length as int };
    if n + APPLE_SILICON_PAGE_SIZE - 1 > usize::MAX {
        None
    } else {
        Some((((n + APPLE_SILICON_PAGE_SIZE - 1) / APPLE_SILICON_PAGE_SIZE as int)
            * APPLE_SILICON_PAGE_SIZE as int) as usize)
    }
}

pub fn round_to_pages(length: usize) -> (r: Option<usize>)
    ensures
        r == page_rounded(length),
        r matches Some(n) ==> n % APPLE_SILICON_PAGE_SIZE == 0 && n >= length && n >= 1 && n
            < length + APPLE_SILICON_PAGE_SIZE + 1,
{
    let n = if length == 0 { 1 } else { length };
    match n.checked_add(APPLE_SILICON_PAGE_SIZE - 1) {
        None => None,
        Some(m) => {
            let rounded = m & !(APPLE_SILICON_PAGE_SIZE - 1);
            assert(m & !(16383usize) == (m / 16384) * 16384) by (bit_vector);
            assert((m / 16384) * 16384 <= m) by (nonlinear_arith);
            assert(m - (m / 16384) * 16384 < 16384) by (nonlinear_arith);
            assert(((m / 16384) * 16384) % 16384 == 0) by (nonlinear_arith);
            Some(rounded)
        },
    }
}

} // verus!
