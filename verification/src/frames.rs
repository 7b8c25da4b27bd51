//! Diagnostic activation records and their budgets.
pub mod active;
