//! Compile-and-execute pipeline for user-defined functions that are stored as
//! source text: target resolution, wrapper source synthesis, lint policy, build
//! planning, artifact loading decisions, an execution cache, and the value
//! marshalling protocol of the sandboxed backend.
//!
//! Every decision of the pipeline is a function from plain values to plain
//! values with a machine-checked contract. Work that touches the operating
//! system is left to the caller, which performs the actions these functions
//! plan and reports back what happened.

pub mod builder;
pub mod cache;
pub mod codegen;
pub mod error;
pub mod gucs;
pub mod lints;
pub mod loader;
pub mod marshal;
pub mod sandbox;
pub mod source;
pub mod target;
pub mod text;
pub mod types;
