//! A safe layer over a native presolve-and-solve engine.
//!
//! The caller builds an optimization problem, hands it to a solver,
//! configures the solver through typed parameters, and reads back typed
//! results, without ever touching the engine's raw resource handles.
//! This crate holds the verified part of that layer: the problem and
//! solver state, the marshaling rules for text crossing the boundary,
//! the exact sequence of native calls each state requires, and the
//! translation of the engine's closed status-code sets.

pub mod marshal;
pub mod param;
pub mod plan;
pub mod problem;
pub mod solver;
pub mod value;
