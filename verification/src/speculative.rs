//! Adaptive speculative-decoding primitives: the draft and target models
//! and the context they share.

use vstd::prelude::*;

verus! {

broadcast use vstd::string::group_string_axioms;

#[derive(Debug, Clone, PartialEq, Eq)]
pub enum SpeculativeError {
    ZeroValue(&'static str),
    DraftModelTooLarge(u64),
    TargetModelTooSmall(u64),
    ContextPositionOutOfRange { position: u32, capacity: u32 },
    InvalidWidthBounds { minimum: u8, maximum: u8 },
    EmptyProposal,
    ContextExhausted,
    Cancelled,
    Backend(String),
    IllegalTransition,
}

/// A positive number of model parameters.
#[derive(Debug, Clone, Copy, PartialEq, Eq, PartialOrd, Ord)]
pub struct ParameterCount(u64);

impl View for ParameterCount {
    type V = u64;

    closed spec fn view(&self) -> u64 {
        self.0
    }
}

impl ParameterCount {
    pub fn new(value: u64) -> (r: Result<Self, SpeculativeError>)
        ensures
            value == 0 ==> r == Err::<Self, SpeculativeError>(
                SpeculativeError::ZeroValue("parameter count"),
            ),
            value != 0 ==> (r matches Ok(p) && p@ == value),
    {
        if value == 0 {
            return Err(SpeculativeError::ZeroValue("parameter count"));
        }
        Ok(Self(value))
    }

    pub fn get(self) -> (r: u64)
        ensures
            r == self@,
    {
        self.0
    }
}

/// Draft models stay below two billion parameters.
pub const DRAFT_MAX_PARAMETERS: u64 = 2_000_000_000;

/// Target models have at least seven billion parameters.
pub const TARGET_MIN_PARAMETERS: u64 = 7_000_000_000;

/// The small model that proposes tokens.
#[derive(Debug, Clone, PartialEq, Eq)]
pub struct DraftModel {
    pub name: String,
    pub parameters: ParameterCount,
}

impl DraftModel {
    pub fn new(name: &str, parameters: ParameterCount) -> (r: Result<Self, SpeculativeError>)
        ensures
            parameters@ >= DRAFT_MAX_PARAMETERS ==> r == Err::<Self, SpeculativeError>(
                SpeculativeError::DraftModelTooLarge(parameters@),
            ),
            parameters@ < DRAFT_MAX_PARAMETERS ==> (r matches Ok(m) && m.name@ == name@
                && m.parameters == parameters),
    {
        if parameters.get() >= DRAFT_MAX_PARAMETERS {
            return Err(SpeculativeError::DraftModelTooLarge(parameters.get()));
        }
        Ok(Self { name: name.to_owned(), parameters })
    }
}

/// The large model that verifies proposals.
#[derive(Debug, Clone, PartialEq, Eq)]
pub struct TargetModel {
    pub name: String,
    pub parameters: ParameterCount,
}

impl TargetModel {
    pub fn new(name: &str, parameters: ParameterCount) -> (r: Result<Self, SpeculativeError>)
        ensures
            parameters@ < TARGET_MIN_PARAMETERS ==> r == Err::<Self, SpeculativeError>(
                SpeculativeError::TargetModelTooSmall(parameters@),
            ),
            parameters@ >= TARGET_MIN_PARAMETERS ==> (r matches Ok(m) && m.name@ == name@
                && m.parameters == parameters),
    {
        if parameters.get() < TARGET_MIN_PARAMETERS {
            return Err(SpeculativeError::TargetModelTooSmall(parameters.get()));
        }
        Ok(Self { name: name.to_owned(), parameters })
    }
}

/// A positive context size in tokens.
#[derive(Debug, Clone, Copy, PartialEq, Eq)]
pub struct ContextCapacity(u32);

impl View for ContextCapacity {
    type V = u32;

    closed spec fn view(&self) -> u32 {
        self.0
    }
}

impl ContextCapacity {
    pub fn new(value: u32) -> (r: Result<Self, SpeculativeError>)
        ensures
            value == 0 ==> r == Err::<Self, SpeculativeError>(
                SpeculativeError::ZeroValue("context capacity"),
            ),
            value != 0 ==> (r matches Ok(c) && c@ == value),
    {
        if value == 0 {
            return Err(SpeculativeError::ZeroValue("context capacity"));
        }
        Ok(Self(value))
    }

    pub fn get(self) -> (r: u32)
        ensures
            r == self@,
    {
        self.0
    }
}

} // verus!
