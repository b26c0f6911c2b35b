//! A memory-safe bridge to a callback-driven, derivative-free optimiser.
//!
//! The native solver works on plain records that must be fully defined
//! before use, calls back into the caller with raw buffers, and hands back a
//! result record whose buffers must be released exactly once. This crate
//! holds the decisions of that bridge as verified code: building defined
//! descriptors, checking a problem against the chosen algorithm before the
//! native call, marshaling callback output, classifying the native status
//! and owning the result record until its single release.
//!
//! The scalar type of every buffer is a parameter `T`; the native binding
//! instantiates it with the double-precision type of the solver.

pub mod callback;
pub mod descriptor;
pub mod solve;
pub mod result;
pub mod status;

pub use descriptor::{new_options, new_problem, try_new_problem};
