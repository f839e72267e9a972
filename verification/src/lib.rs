//! A reverse-mode automatic-differentiation engine over a pluggable tensor
//! backend, together with a batching data loader.
//!
//! Forward operations ([`ops`]) record nodes in a [`graph::Graph`]; a
//! backward pass ([`engine`]) takes the recorded nodes in decreasing
//! creation order and fills a [`engine::Gradients`] container. What the pass
//! computes is stated in [`adjoint`], and what follows from that, the chain
//! rule among it, is proved in [`laws`]. The engine is written against the
//! operations of [`backend::Backend`]; [`matrix::Matrix`] is a backend of
//! exact integer matrices.
//!
//! [`dataloader`] walks a dataset in batches.

pub mod adjoint;
pub mod backend;
pub mod dataloader;
pub mod engine;
pub mod error;
pub mod graph;
pub mod laws;
pub mod matrix;
pub mod ops;
pub mod tensor;
