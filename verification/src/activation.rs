//! Catch and iterator unwind metadata.
use vstd::prelude::*;

verus! {

/// Catch and iterator unwind metadata owned by an explicit execution frame.
#[derive(Clone, Copy, Debug, PartialEq, Eq, Structural)]
pub enum VmUnwindRegion {
    Catch {
        target: usize,
        /// Operand depth before the private catch marker was installed.
        stack_depth: usize,
    },
    Iterator {
        /// Operand index of `iterator`; `next` immediately follows.
        record_base: usize,
        /// A record is disabled before its own throw propagates or before
        /// `done` is published, so later unwinding must not call `return`.
        enabled: bool,
        /// Keeps synchronous and asynchronous continuation records apart.
        asynchronous: bool,
    },
}

} // verus!
