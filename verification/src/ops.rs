//! The operations of the graph: their kinds, their kernels, the rewriting of
//! chains of scalar operations, and the arithmetic of tensors and promises.
pub mod impl_compute_op;
pub mod fusion;
pub mod impl_op;
pub mod cached_ops;
pub mod promise_ops;
pub mod tensor_ops;
