//! Compile-orchestration core for a zero-knowledge circuit compiler.
//!
//! The crate resolves an untyped host payload into typed compile options,
//! assembles the crate graph for one compile invocation, decides the steps
//! of the invocation (delegating type-checking and code generation to an
//! external driver run by the host), flattens compiled contracts into a
//! flat, uniquely named program list, and marshals the final artifact into
//! the host exchange format.

pub mod contract;
pub mod errors;
pub mod graph;
pub mod marshal;
pub mod options;
pub mod pipeline;
pub mod value;
