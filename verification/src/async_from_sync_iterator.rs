//! Async iterators over synchronous ones.
pub mod operation;
