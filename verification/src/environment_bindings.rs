//! Object environments.
pub mod operation;
