//! A data loader that walks a dataset in batches.
//!
//! The loader decides which items go into which batch, and in what order;
//! it knows an item by its position in the dataset. Fetching the items and
//! turning a batch of them into a tensor is left to the caller.

pub mod batch;
pub mod outside;
pub mod strategy;
