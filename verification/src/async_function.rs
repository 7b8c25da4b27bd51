//! Async functions.
pub mod operation;
