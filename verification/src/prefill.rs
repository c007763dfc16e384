//! Chunked context prefill scheduling.

use vstd::prelude::*;

verus! {

#[derive(Debug, Clone, Copy, PartialEq, Eq, Structural)]
pub enum PrefillError {
    EmptyRequest,
    ZeroBudget,
    InvalidGeometry,
    InvalidThresholds,
    UnsafeScratch,
    InsufficientMemory,
    CriticalPressure,
}

/// A positive number of tokens.
#[derive(Debug, Clone, Copy, PartialEq, Eq, PartialOrd, Ord)]
pub struct TokenCount(usize);

impl View for TokenCount {
    type V = usize;

    closed spec fn view(&self) -> usize {
        self.0
    }
}

impl TokenCount {
    pub fn new(value: usize) -> (r: Result<Self, PrefillError>)
        ensures
            value == 0 ==> r == Err::<Self, PrefillError>(PrefillError::EmptyRequest),
            value != 0 ==> (r matches Ok(t) && t@ == value),
    {
        if value == 0 {
            return Err(PrefillError::EmptyRequest);
        }
        Ok(Self(value))
    }

    pub fn get(self) -> (r: usize)
        ensures
            r == self@,
    {
        self.0
    }
}

/// Size of one prefill chunk.
#[derive(Debug, Clone, Copy, PartialEq, Eq, Structural)]
pub enum PrefillStep {
    Tokens512,
    Tokens1024,
}

pub open spec fn step_tokens(step: PrefillStep) -> usize {
    match step {
        PrefillStep::Tokens512 => 512,
        PrefillStep::Tokens1024 => 1024,
    }
}

impl PrefillStep {
    pub fn tokens(self) -> (r: usize)
        ensures
            r == step_tokens(self),
    {
        match self {
            Self::Tokens512 => 512,
            Self::Tokens1024 => 1024,
        }
    }

    /// Requests of up to 512 tokens prefill in 512-token chunks, longer
    /// ones in 1024-token chunks.
    pub fn for_tokens(tokens: TokenCount) -> (r: Self)
        ensures
            tokens@ <= 512 ==> r == PrefillStep::Tokens512,
            tokens@ > 512 ==> r == PrefillStep::Tokens1024,
    {
        if tokens.get() <= 512 {
            Self::Tokens512
        } else {
            Self::Tokens1024
        }
    }
}

/// A positive scratch-memory budget in bytes.
#[derive(Debug, Clone, Copy, PartialEq, Eq)]
pub struct ScratchBudget(u64);

impl View for ScratchBudget {
    type V = u64;

    closed spec fn view(&self) -> u64 {
        self.0
    }
}

impl ScratchBudget {
    pub fn new(bytes: u64) -> (r: Result<Self, PrefillError>)
        ensures
            bytes == 0 ==> r == Err::<Self, PrefillError>(PrefillError::ZeroBudget),
            bytes != 0 ==> (r matches Ok(b) && b@ == bytes),
    {
        if bytes == 0 {
            return Err(PrefillError::ZeroBudget);
        }
        Ok(Self(bytes))
    }

    pub fn bytes(self) -> (r: u64)
        ensures
            r == self@,
    {
        self.0
    }
}

/// Host memory as the prefill scheduler sees it.
#[derive(Debug, Clone, Copy, PartialEq, Eq, Structural)]
pub struct MemorySnapshot {
    pub total_bytes: u64,
    pub resident_bytes: u64,
    pub reserved_bytes: u64,
}

} // verus!
