//! Verified core of a local inference runtime for Apple Silicon hosts:
//! memory and storage planning, model registry, migration planning and
//! the text protocols the runtime speaks.

pub mod text;
pub mod platform;
pub mod time;
pub mod darwin;
pub mod migration;
pub mod registry;
pub mod gateway;
pub mod plugin;
pub mod prefill;
pub mod speculative;
pub mod supervisor;
pub mod context;
pub mod router;
pub mod radix;
pub mod arbiter;
pub mod tui;
pub mod decision;
pub mod benchmark;
pub mod api;
pub mod agent;
