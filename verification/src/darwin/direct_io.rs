//! Page-aligned uncached model I/O: buffer layouts and file ranges.

use vstd::prelude::*;

verus! {

/// Why an uncached read could not be set up or completed. I/O failures
/// carry the message of the operating-system error.
#[derive(Debug, Clone, PartialEq, Eq)]
pub enum DirectIoError {
    InvalidLayout { size: usize, alignment: usize },
    Open { path: String, source: String },
    NoCache(String),
    Read { offset: u64, source: String },
    OffsetOverflow { offset: u64 },
    InvalidWorkerLimit,
    WorkerPanic,
}

/// `n` is a power of two.
pub open spec fn is_power_of_two(n: nat) -> bool
    decreases n,
{
    if n == 0 {
        false
    } else if n == 1 {
        true
    } else {
        n % 2 == 0 && is_power_of_two(n / 2)
    }
}

fn power_of_two_exec(n: usize) -> (r: bool)
    ensures
        r == is_power_of_two(n as nat),
{
    let mut m = n;
    while m > 1 && m % 2 == 0
        invariant
            is_power_of_two(n as nat) == is_power_of_two(m as nat),
        decreases m,
    {
        m = m / 2;
    }
    m == 1
}

/// The alignments `posix_memalign` accepts: a power of two that is a
/// multiple of the pointer size.
pub open spec fn valid_alignment(alignment: usize) -> bool {
    &&& alignment >= vstd::layout::size_of::<usize>()
    &&& is_power_of_two(alignment as nat)
    &&& (alignment as int) % (vstd::layout::size_of::<usize>() as int) == 0
}

/// Checks the alignment of a buffer of `size` bytes.
pub fn validate_layout(size: usize, alignment: usize) -> (r: Result<(), DirectIoError>)
    ensures
        valid_alignment(alignment) ==> r == Ok::<(), DirectIoError>(()),
        !valid_alignment(alignment) ==> r == Err::<(), DirectIoError>(
            DirectIoError::InvalidLayout { size, alignment },
        ),
{
    broadcast use vstd::layout::layout_of_primitives;

    let pointer = core::mem::size_of::<usize>();
    if alignment < pointer || !power_of_two_exec(alignment) || alignment % pointer != 0 {
        return Err(DirectIoError::InvalidLayout { size, alignment });
    }
    Ok(())
}

/// A byte range of a model file.
#[derive(Debug, Clone, Copy, PartialEq, Eq, Structural)]
pub struct ChunkRange {
    pub offset: u64,
    pub length: usize,
}

impl ChunkRange {
    /// The offset just past the range, if it fits in `u64`.
    pub fn end(self) -> (r: Option<u64>)
        ensures
            self.offset + self.length <= u64::MAX ==> r == Some((self.offset + self.length) as u64),
            self.offset + self.length > u64::MAX ==> r is None,
    {
        broadcast use vstd::layout::layout_of_primitives;

        if self.length as u128 > u64::MAX as u128 {
            return None;
        }
        self.offset.checked_add(self.length as u64)
    }
}

} // verus!
