//! An explicit-frame bytecode virtual machine whose drivers are verified.
//!
//! Frames, operands and pending operations live in plain stores instead of the
//! native stack.  Every driver is a transition over those stores and its
//! contract gives the transition as a function of the state it started from.

pub mod activation;
pub mod apply_driver;
pub mod array;
pub mod array_driver;
pub mod async_from_sync_iterator;
pub mod async_function;
pub mod backtrace;
pub mod balance;
pub mod bindings;
pub mod call;
pub mod class;
pub mod code;
pub mod construct_driver;
pub mod conversion_driver;
pub mod driver;
pub mod environment_bindings;
pub mod environment_driver;
pub mod error;
pub mod eval_driver;
pub mod execution;
pub mod frame;
pub mod frame_exit;
pub mod frame_operations;
pub mod frames;
pub mod heap;
pub mod numeric;
pub mod object;
pub mod primitive;
pub mod promise;
pub mod property_driver;
pub mod property_write_driver;
pub mod run;
pub mod runtime;
pub mod slots;
pub mod storage;
pub mod text;
pub mod unwind;
pub mod value;
pub mod with_driver;
