//! Sizing of page-aligned shared Metal allocations.
//!
//! Each allocation is rounded up to whole pages, and a batch of reads is
//! checked against the byte budget before anything is allocated.

use vstd::prelude::*;
use super::{page_rounded, round_to_pages};
use super::direct_io::{ChunkRange, DirectIoError};

verus! {

#[derive(Debug, Clone, PartialEq, Eq)]
pub enum MetalBufferError {
    /// The size exceeds the allocation budget or the device limit.
    Capacity,
    /// Metal refused the shared allocation.
    Unavailable,
    Allocation(DirectIoError),
    /// A storage worker could not start; the message of the OS error.
    WorkerStart(String),
}

/// The capacity of a shared buffer for `length` bytes: page-rounded, within
/// the budget and within the device's largest buffer.
pub open spec fn capacity_for(length: usize, budget_bytes: usize, device_max: usize) -> Result<usize, MetalBufferError> {
    match page_rounded(length) {
        Some(n) => if n <= budget_bytes && n <= device_max {
            Ok(n)
        } else {
            Err(MetalBufferError::Capacity)
        },
        None => Err(MetalBufferError::Capacity),
    }
}

pub fn shared_capacity(length: usize, budget_bytes: usize, device_max: usize) -> (r: Result<usize, MetalBufferError>)
    ensures
        r == capacity_for(length, budget_bytes, device_max),
{
    match round_to_pages(length) {
        Some(n) => if n <= budget_bytes && n <= device_max {
            Ok(n)
        } else {
            Err(MetalBufferError::Capacity)
        },
        None => Err(MetalBufferError::Capacity),
    }
}

/// Checks the ranges in order with `remaining` bytes of budget: each must
/// end within `i64` offsets, and their page-rounded sizes must fit.
pub open spec fn preflight_from(ranges: Seq<ChunkRange>, remaining: int) -> Result<(), MetalBufferError>
    decreases ranges.len(),
{
    if ranges.len() == 0 {
        Ok(())
    } else {
        let range = ranges[0];
        if range.offset + range.length > i64::MAX {
            Err(MetalBufferError::Allocation(DirectIoError::OffsetOverflow { offset: range.offset }))
        } else {
            match page_rounded(range.length) {
                None => Err(MetalBufferError::Capacity),
                Some(padded) => if padded > remaining {
                    Err(MetalBufferError::Capacity)
                } else {
                    preflight_from(ranges.drop_first(), remaining - padded)
                },
            }
        }
    }
}

/// What loading `ranges` into shared buffers checks before it allocates.
pub open spec fn preflight(ranges: Seq<ChunkRange>, worker_limit: usize, budget_bytes: usize) -> Result<(), MetalBufferError> {
    if worker_limit == 0 {
        Err(MetalBufferError::Allocation(DirectIoError::InvalidWorkerLimit))
    } else {
        preflight_from(ranges, budget_bytes as int)
    }
}

pub fn preflight_chunks(ranges: &[ChunkRange], worker_limit: usize, budget_bytes: usize) -> (r: Result<(), MetalBufferError>)
    ensures
        r == preflight(ranges@, worker_limit, budget_bytes),
{
    if worker_limit == 0 {
        return Err(MetalBufferError::Allocation(DirectIoError::InvalidWorkerLimit));
    }
    let mut remaining = budget_bytes;
    let mut i: usize = 0;
    assert(ranges@.skip(0) =~= ranges@);
    while i < ranges.len()
        invariant
            worker_limit > 0,
            i <= ranges@.len(),
            preflight_from(ranges@, budget_bytes as int) == preflight_from(
                ranges@.skip(i as int),
                remaining as int,
            ),
        decreases ranges.len() - i,
    {
        let range = ranges[i];
        assert(ranges@.skip(i as int)[0] == range);
        assert(ranges@.skip(i as int).drop_first() =~= ranges@.skip(i + 1));
        let fits = match range.end() {
            Some(end) => end <= i64::MAX as u64,
            None => false,
        };
        if !fits {
            return Err(MetalBufferError::Allocation(DirectIoError::OffsetOverflow { offset: range.offset }));
        }
        let padded = match round_to_pages(range.length) {
            Some(p) => p,
            None => return Err(MetalBufferError::Capacity),
        };
        if padded > remaining {
            return Err(MetalBufferError::Capacity);
        }
        remaining = remaining - padded;
        i = i + 1;
    }
    assert(ranges@.skip(i as int).len() == 0);
    Ok(())
}

/// Every range ends within `i64` offsets and has a page-rounded size.
pub open spec fn ranges_fit(ranges: Seq<ChunkRange>) -> bool {
    forall|i: int|
        0 <= i < ranges.len() ==> (#[trigger] ranges[i]).offset + ranges[i].length <= i64::MAX
            && page_rounded(ranges[i].length) is Some
}

/// The page-rounded sizes of the ranges, added up.
pub open spec fn padded_total(ranges: Seq<ChunkRange>) -> nat
    decreases ranges.len(),
{
    if ranges.len() == 0 {
        0
    } else {
        let padded: nat = match page_rounded(ranges[0].length) {
            Some(p) => p as nat,
            None => 0,
        };
        padded + padded_total(ranges.drop_first())
    }
}

/// The budget covers the page padding: a batch passes its checks exactly
/// when every range is well placed and the page-rounded sizes together
/// fit the budget.
pub proof fn lemma_preflight_counts_padding(ranges: Seq<ChunkRange>, remaining: int)
    requires
        remaining >= 0,
    ensures
        preflight_from(ranges, remaining) is Ok <==> ranges_fit(ranges) && padded_total(ranges)
            <= remaining,
    decreases ranges.len(),
{
    if ranges.len() > 0 {
        let rest = ranges.drop_first();
        let p: int = match page_rounded(ranges[0].length) {
            Some(p) => p as int,
            None => 0,
        };
        if p <= remaining {
            lemma_preflight_counts_padding(rest, remaining - p);
        }
        assert(ranges_fit(ranges) <==> (ranges[0].offset + ranges[0].length <= i64::MAX
            && page_rounded(ranges[0].length) is Some && ranges_fit(rest))) by {
            if ranges_fit(ranges) {
                assert forall|i: int| 0 <= i < rest.len() implies (#[trigger] rest[i]).offset
                    + rest[i].length <= i64::MAX && page_rounded(rest[i].length) is Some by {
                    assert(rest[i] == ranges[i + 1]);
                }
            }
            if ranges[0].offset + ranges[0].length <= i64::MAX && page_rounded(
                ranges[0].length,
            ) is Some && ranges_fit(rest) {
                assert forall|i: int| 0 <= i < ranges.len() implies (#[trigger] ranges[i]).offset
                    + ranges[i].length <= i64::MAX && page_rounded(ranges[i].length) is Some by {
                    if i > 0 {
                        assert(ranges[i] == rest[i - 1]);
                    }
                }
            }
        }
    }
}

/// Ranges are read by workers in batches of at most `worker_limit`, taken
/// in order: batch `b` holds ranges `b * worker_limit` up to the next
/// batch or the end.
pub open spec fn batch_of(count: nat, worker_limit: nat, b: int) -> (int, int) {
    let start = b * worker_limit;
    let end = if start + worker_limit <= count { start + worker_limit } else { count as int };
    (start, end)
}

/// The batches in which `count` ranges are read, `worker_limit` at a time.
pub fn worker_batches(count: usize, worker_limit: usize) -> (r: Vec<(usize, usize)>)
    requires
        worker_limit > 0,
    ensures
        r@.len() * worker_limit >= count,
        forall|b: int| 0 <= b < r@.len() ==> (#[trigger] r@[b]).0 == batch_of(
            count as nat,
            worker_limit as nat,
            b,
        ).0 && r@[b].1 == batch_of(count as nat, worker_limit as nat, b).1,
        forall|b: int| 0 <= b < r@.len() ==> (#[trigger] r@[b]).0 < r@[b].1 && r@[b].1 - r@[b].0
            <= worker_limit,
        r@.len() > 0 ==> r@[0].0 == 0 && r@.last().1 == count,
        forall|b: int| 0 < b < r@.len() ==> (#[trigger] r@[b]).0 == r@[b - 1].1,
{
    let mut r: Vec<(usize, usize)> = Vec::new();
    let mut start: usize = 0;
    proof {
        let z: int = r@.len() as int;
        assert(z * worker_limit == 0) by (nonlinear_arith)
            requires
                z == 0,
        ;
    }
    while start < count
        invariant
            worker_limit > 0,
            start <= count,
            start == r@.len() * worker_limit || (start == count && r@.len() > 0),
            r@.len() * worker_limit >= start,
            r@.len() > 0 ==> r@[0].0 == 0 && r@.last().1 == start,
            forall|b: int| 0 <= b < r@.len() ==> (#[trigger] r@[b]).0 == batch_of(
                count as nat,
                worker_limit as nat,
                b,
            ).0 && r@[b].1 == batch_of(count as nat, worker_limit as nat, b).1,
            forall|b: int| 0 <= b < r@.len() ==> (#[trigger] r@[b]).0 < r@[b].1 && r@[b].1
                - r@[b].0 <= worker_limit,
            forall|b: int| 0 < b < r@.len() ==> (#[trigger] r@[b]).0 == r@[b - 1].1,
        decreases count - start,
    {
        let end = if count - start >= worker_limit { start + worker_limit } else { count };
        proof {
            let b = r@.len() as int;
            assert(start == b * worker_limit);
            assert(b == 0 ==> start == 0) by (nonlinear_arith)
                requires
                    start == b * worker_limit,
            ;
            assert((b + 1) * worker_limit == b * worker_limit + worker_limit) by (nonlinear_arith);
        }
        r.push((start, end));
        start = end;
    }
    r
}

/// The first failure among the workers' results, in range order.
pub open spec fn first_error<E>(results: Seq<Result<(), E>>) -> Option<E>
    decreases results.len(),
{
    if results.len() == 0 {
        None
    } else {
        match results[0] {
            Err(e) => Some(e),
            Ok(()) => first_error(results.drop_first()),
        }
    }
}

/// How a batch of reads ends: a worker that could not start fails the
/// batch; otherwise the first worker that failed, in range order, does.
pub open spec fn batch_outcome<E>(spawn_error: Option<E>, results: Seq<Result<(), E>>) -> Result<(), E> {
    match spawn_error {
        Some(e) => Err(e),
        None => match first_error(results) {
            Some(e) => Err(e),
            None => Ok(()),
        },
    }
}

pub fn first_failure<E>(spawn_error: Option<E>, results: Vec<Result<(), E>>) -> (r: Result<(), E>)
    ensures
        r == batch_outcome(spawn_error, results@),
{
    if let Some(e) = spawn_error {
        return Err(e);
    }
    let ghost all = results@;
    let mut rest = results;
    let mut found: Option<E> = None;
    assert(all.skip(all.len() as int) =~= Seq::<Result<(), E>>::empty());
    while rest.len() > 0
        invariant
            rest@.len() <= all.len(),
            rest@ == all.take(rest@.len() as int),
            found == first_error(all.skip(rest@.len() as int)),
        decreases rest.len(),
    {
        let ghost n = rest@.len() as int;
        let item = rest.pop().unwrap();
        assert(all.skip(n - 1).drop_first() =~= all.skip(n));
        assert(all.skip(n - 1)[0] == item);
        assert(rest@ =~= all.take(n - 1));
        match item {
            Err(e) => {
                found = Some(e);
            },
            Ok(()) => {},
        }
    }
    assert(all.skip(0) =~= all);
    match found {
        Some(e) => Err(e),
        None => Ok(()),
    }
}

} // verus!
