//! Same-frame slot ownership transitions outside the resident loop.
use vstd::prelude::*;
use crate::error::Error;
use crate::execution::{Machine, RunningExecution};
use crate::frame::FrameId;
use crate::heap::Heap;
use crate::run::RunExit;
use crate::runtime::Runtime;

verus! {

impl Machine {
    /// Removing the top operand, or the one below it, and giving up its edge.
    /// Both operands are looked at before either moves.
    pub open spec fn release_operand(self, heap: Heap, id: FrameId, keep_top: bool) -> (
        Heap,
        Machine,
        Result<bool, Error>,
    ) {
        match self.frames.current(id) {
            Err(e) => (heap, self, Err(e)),
            Ok(frame) => match (self.slots.peek(frame.window, 0), self.slots.peek(
                frame.window,
                if keep_top {
                    1
                } else {
                    0
                },
            )) {
                (_, Err(e)) => (heap, self, Err(e)),
                (Err(e), _) => (heap, self, Err(e)),
                (Ok(top), Ok(released)) => {
                    let (slots, r) = if keep_top {
                        Machine::retop2(self.slots, frame.window, top)
                    } else {
                        self.slots.discard(frame.window, 1)
                    };
                    let machine = Machine { slots, ..self };
                    match r {
                        Err(e) => (heap, machine, Err(e)),
                        Ok(_) => match heap.release(released) {
                            (heap, Err(e)) => (heap, machine, Err(e)),
                            (heap, Ok(_)) => match machine.resumed(
                                frame,
                                Error::internal("release resume PC overflow"),
                            ) {
                                (machine, Err(e)) => (heap, machine, Err(e)),
                                (machine, Ok(_)) => (heap, machine, Ok(true)),
                            },
                        },
                    }
                },
            },
        }
    }
}

/// Complete an exit that only moves slots; say whether it was one.
pub fn complete(
    runtime: &mut Runtime,
    execution: &mut RunningExecution,
    id: FrameId,
    exit: RunExit,
) -> (r: Result<bool, Error>)
    requires
        old(runtime).wf(),
    ensures
        final(runtime).wf(),
        (final(runtime)@, final(execution)@, r) == (match exit {
            RunExit::ReleaseOperand { keep_top } => old(execution)@.release_operand(
                old(runtime)@,
                id,
                keep_top,
            ),
            _ => (old(runtime)@, old(execution)@, Ok(false)),
        }),
{
    if let RunExit::ReleaseOperand { keep_top } = exit {
        let frame = execution.frames.current(id)?;
        let released = execution.slots.peek(
            frame.window,
            if keep_top {
                1
            } else {
                0
            },
        )?;
        let top = execution.slots.peek(frame.window, 0)?;
        if keep_top {
            execution.slots.discard(frame.window, 2)?;
            execution.slots.push(top)?;
        } else {
            execution.slots.discard(frame.window, 1)?;
        }
        runtime.release_jsvalue(released)?;
        execution.resume_after(frame, Error::internal("release resume PC overflow"))?;
        return Ok(true);
    }
    Ok(false)
}

/// A released operand is the top one, or the one below a kept top: it leaves the
/// operands and one edge of it is given up.
pub proof fn released_operands_leave_the_others(
    machine: Machine,
    heap: Heap,
    id: FrameId,
    frame: crate::frame::Frame,
    top: crate::value::JsValue,
    below: crate::value::JsValue,
)
    requires
        machine.frames.current(id) == Ok::<crate::frame::Frame, Error>(frame),
        frame.fault_pc < usize::MAX,
        machine.slots.values.len() <= machine.slots.limit,
        machine.slots.peek(frame.window, 0) == Ok::<crate::value::JsValue, Error>(top),
        machine.slots.peek(frame.window, 1) == Ok::<crate::value::JsValue, Error>(below),
        heap.release(top).1 is Ok,
        heap.release(below).1 is Ok,
    ensures
        ({
            let n = machine.slots.values.len() as int;
            let (after, m, r) = machine.release_operand(heap, id, false);
            &&& r == Ok::<bool, Error>(true)
            &&& m.slots.values == machine.slots.values.take(n - 1)
            &&& after == heap.release(top).0
        }),
        ({
            let n = machine.slots.values.len() as int;
            let (after, m, r) = machine.release_operand(heap, id, true);
            &&& r == Ok::<bool, Error>(true)
            &&& m.slots.values == machine.slots.values.take(n - 2).push(
                crate::slots::FrameBinding::Direct(top),
            )
            &&& after == heap.release(below).0
        }),
{
    reveal_with_fuel(crate::slots::Slots::discard, 3);
    let one = machine.slots.pop(frame.window).0;
    assert(one.peek(frame.window, 0) == machine.slots.peek(frame.window, 1));
    assert(one.values.drop_last() =~= machine.slots.values.take(machine.slots.values.len() - 2));
}

} // verus!
