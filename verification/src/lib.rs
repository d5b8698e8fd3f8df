//! Boundary layer for an embedded JavaScript engine.
//!
//! A host program holds opaque handles to independent script-execution
//! contexts, runs JavaScript source against them, and receives results as
//! owned text buffers.  The engine itself is an external collaborator;
//! this crate verifies the boundary around it: handle lifecycle, the
//! marshaling of raw inputs, sentinel error signalling, and the
//! per-context execution counter.
//!
//! Operations that involve the engine are split into a `*_begin` function
//! (validation, up to the input the engine receives) and a `*_finish`
//! function (marshaling of the engine's outcome, whatever it was); the
//! embedder runs the engine in between.  See [`ops`] for the operation
//! set, [`registry`] for the handle table and its model, and [`laws`] for
//! the properties proved of every call sequence.

pub mod buffer;
pub mod context;
pub mod laws;
pub mod ops;
pub mod registry;
pub mod stats;
pub mod text;
