//! Thunderbolt storage migration and rollback: the decisions, parsers and
//! validations of a migration; the tools and files they act on are driven
//! from outside this crate.

pub mod link;
pub mod trim;
pub mod paths;
pub mod stage;
pub mod manifest;
pub mod volume;
pub mod cutover;

use vstd::prelude::*;

verus! {

/// Why a migration step was refused.
#[derive(Debug, Clone, PartialEq, Eq)]
pub enum MigrationError {
    InvalidInput(&'static str),
    ToolFailure(String),
    Io(String),
}

} // verus!
