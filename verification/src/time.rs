//! Durations, read as nanoseconds.

use vstd::prelude::*;
use core::time::Duration;

verus! {

/// The whole length of a duration in nanoseconds, as `Duration::as_nanos`
/// reports it.
pub uninterp spec fn duration_as_nanos(d: Duration) -> u128;

/// `Duration::as_nanos`: the result is the duration's length in
/// nanoseconds, named `duration_as_nanos`.
#[verifier::external_body]
pub(crate) fn duration_nanos(d: &Duration) -> (r: u128)
    ensures
        r == duration_as_nanos(*d),
{
    d.as_nanos()
}

/// `Duration::from_millis`: a duration of `ms` milliseconds, that is
/// `ms * 1_000_000` nanoseconds as `as_nanos` reports them.
#[verifier::external_body]
pub(crate) fn duration_from_millis(ms: u64) -> (r: Duration)
    ensures
        duration_as_nanos(r) == ms * 1_000_000,
{
    Duration::from_millis(ms)
}

} // verus!
