//! A lazy, in-memory engine for dense multi-dimensional arrays.
//!
//! Arrays are described by a [`layout::Layout`] over a flat buffer. Arithmetic
//! on tensors builds a graph of operation nodes; nothing is computed until a
//! promise is materialized, at which point the graph is sorted, adjacent scalar
//! operations having been fused at construction, and evaluated.
pub mod definitions;
pub mod device;
pub mod errors;
pub mod evaluator;
pub mod graph;
pub mod impl_generics;
pub mod internals;
pub mod iter;
pub mod layout;
pub mod mat;
pub mod ops;
pub mod plan;
pub mod promise;
pub mod semantics;
pub mod slice;
pub mod storage;
pub mod tensor;
pub mod traits;
pub mod walk;
