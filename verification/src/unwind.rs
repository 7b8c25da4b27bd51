//! Exception unwinding inside one frame.
use vstd::prelude::*;
use crate::activation::VmUnwindRegion;
use crate::driver::{prepare_captured_reuse, CallStep};
use crate::error::Error;
use crate::execution::{Machine, RunningExecution};
use crate::frame::{Frame, FrameId};
use crate::heap::Heap;
use crate::runtime::Runtime;
use crate::slots::{FrameBinding, FrameWindow, Slots};
use crate::value::{Completion, JsValue};

verus! {

impl Machine {
    /// Handing a thrown value to the innermost catch region of the current
    /// frame; without one the frame completes with the throw.  An iterator
    /// region is closed by the embedder.
    pub open spec fn unwind(self, heap: Heap, id: FrameId, value: JsValue) -> (
        Machine,
        Result<CallStep, Error>,
    ) {
        match self.frames.current(id) {
            Err(e) => (self, Err(e)),
            Ok(frame) => match self.innermost(frame) {
                None => (self, Ok(CallStep::Complete(Completion::Throw(value)))),
                Some(VmUnwindRegion::Iterator { .. }) => (self, Ok(CallStep::Bridge)),
                Some(VmUnwindRegion::Catch { target, stack_depth }) => match heap.function_at(
                    frame.executable,
                ) {
                    Err(e) => (self, Err(e)),
                    Ok(function) => if !(frame.window.locals_at + function.local_definitions@.len()
                        == frame.window.floor && frame.window.floor <= self.slots.values.len()) {
                        (
                            self,
                            Err(
                                Error::internal(
                                    "reusable captured-local flags disagree with the frame",
                                ),
                            ),
                        )
                    } else {
                        self.caught_at(frame, target, stack_depth as nat, value)
                    },
                },
            },
        }
    }

    /// Entering a catch clause: its depth is restored, the thrown value pushed
    /// and the region closed.
    pub open spec fn caught_at(self, frame: Frame, target: usize, depth: nat, value: JsValue) -> (
        Machine,
        Result<CallStep, Error>,
    ) {
        let (slots, r) = self.slots.reuse_captured(
            frame.window,
            frame.window.locals_at as int,
        ).discard_to(frame.window, depth);
        match r {
            Err(e) => (Machine { slots, ..self }, Err(e)),
            Ok(_) => match slots.push(value) {
                (slots, Err(e)) => (Machine { slots, ..self }, Err(e)),
                (slots, Ok(_)) => (
                    Machine {
                        slots,
                        regions: self.regions.drop_last(),
                        frames: self.frames.stored(Frame { resume_pc: target, ..frame }),
                        ..self
                    },
                    Ok(CallStep::Entered),
                ),
            },
        }
    }
}

/// Hand a thrown value to the innermost catch region of the current frame.
pub fn unwind(runtime: &Runtime, execution: &mut RunningExecution, id: FrameId, value: JsValue) -> (r:
    Result<CallStep, Error>)
    ensures
        (final(execution)@, r) == old(execution)@.unwind(runtime@, id, value),
{
    let mut frame = execution.frames.current(id)?;
    match execution.innermost(frame) {
        None => Ok(CallStep::Complete(Completion::Throw(value))),
        Some(VmUnwindRegion::Iterator { .. }) => Ok(CallStep::Bridge),
        Some(VmUnwindRegion::Catch { target, stack_depth }) => {
            prepare_captured_reuse(runtime, frame, &mut execution.slots)?;
            execution.slots.discard_to(frame.window, stack_depth)?;
            execution.slots.push(value)?;
            let _ = execution.regions.pop();
            frame.resume_pc = target;
            execution.frames.store(frame);
            assert(execution@.regions =~= old(execution)@.regions.drop_last());
            Ok(CallStep::Entered)
        },
    }
}

/// A throw inside a catch region is caught there, with the operands that were
/// there when the region opened and the thrown value on top; the region is
/// closed, so a throw of the handler goes further out.
pub proof fn catch_regions_catch_once(
    machine: Machine,
    heap: Heap,
    id: FrameId,
    frame: Frame,
    target: usize,
    depth: usize,
    value: JsValue,
)
    requires
        machine.frames.current(id) == Ok::<Frame, Error>(frame),
        machine.innermost(frame) == Some(
            VmUnwindRegion::Catch { target, stack_depth: depth },
        ),
        machine.unwind(heap, id, value).1 == Ok::<CallStep, Error>(CallStep::Entered),
    ensures
        machine.unwind(heap, id, value).0.regions == machine.regions.drop_last(),
        machine.unwind(heap, id, value).0.frames.current(id) == Ok::<Frame, Error>(
            Frame { resume_pc: target, ..frame },
        ),
        machine.unwind(heap, id, value).0.slots.values.last() == FrameBinding::Direct(value),
        depth <= machine.slots.depth(frame.window) ==> {
            let after = machine.unwind(heap, id, value).0.slots;
            &&& after.values.len() == frame.window.floor + depth + 1
            &&& forall|i: int|
                frame.window.floor <= i < frame.window.floor + depth ==> #[trigger] after.values[i]
                    == machine.slots.values[i]
        },
{
    let reused = machine.slots.reuse_captured(frame.window, frame.window.locals_at as int);
    reuse_keeps_operands(machine.slots, frame.window, frame.window.locals_at as int);
    if reused.depth(frame.window) > depth {
        discarding_takes_the_top(
            reused,
            frame.window,
            (reused.depth(frame.window) - depth) as nat,
        );
    }
}

proof fn reuse_keeps_operands(slots: Slots, window: FrameWindow, from: int)
    ensures
        slots.reuse_captured(window, from).values.len() == slots.values.len(),
        slots.reuse_captured(window, from).limit == slots.limit,
        forall|i: int|
            window.floor <= i < slots.values.len() ==> #[trigger] slots.reuse_captured(
                window,
                from,
            ).values[i] == slots.values[i],
    decreases window.floor - from,
{
    if 0 <= from < window.floor && from < slots.values.len() {
        let next = match slots.values[from] {
            FrameBinding::Captured { cell, .. } => Slots {
                values: slots.values.update(from, FrameBinding::Captured { cell, reusable: true }),
                ..slots
            },
            _ => slots,
        };
        reuse_keeps_operands(next, window, from + 1);
    }
}

pub(crate) proof fn discarding_takes_the_top(slots: Slots, window: FrameWindow, count: nat)
    requires
        slots.discard(window, count).1 is Ok,
    ensures
        count <= slots.values.len(),
        slots.discard(window, count).0.values == slots.values.take(slots.values.len() - count),
    decreases count,
{
    if count > 0 {
        let popped = slots.pop(window).0;
        discarding_takes_the_top(popped, window, (count - 1) as nat);
        assert(slots.values.drop_last().take(slots.values.len() - count) =~= slots.values.take(
            slots.values.len() - count,
        ));
    } else {
        assert(slots.values.take(slots.values.len() as int) =~= slots.values);
    }
}

/// A throw inside an iterator region changes nothing until the embedder has
/// closed it.
pub proof fn iterator_regions_are_handed_over(
    machine: Machine,
    heap: Heap,
    id: FrameId,
    frame: Frame,
    value: JsValue,
)
    requires
        machine.frames.current(id) == Ok::<Frame, Error>(frame),
        machine.innermost(frame) matches Some(region) && region is Iterator,
    ensures
        machine.unwind(heap, id, value) == (machine, Ok::<CallStep, Error>(CallStep::Bridge)),
{
}

/// A throw outside of every region leaves the frame as it is and ends it with
/// that value.
pub proof fn uncaught_throws_end_their_frame(
    machine: Machine,
    heap: Heap,
    id: FrameId,
    frame: Frame,
    value: JsValue,
)
    requires
        machine.frames.current(id) == Ok::<Frame, Error>(frame),
        frame.region_base == machine.regions.len(),
    ensures
        machine.unwind(heap, id, value) == (
            machine,
            Ok::<CallStep, Error>(CallStep::Complete(Completion::Throw(value))),
        ),
{
}

/// The innermost region of a frame is the one that was opened last; regions of
/// the callers are none of the frame's.
pub proof fn regions_belong_to_their_frame(machine: Machine, frame: Frame)
    requires
        frame.region_base <= machine.regions.len(),
    ensures
        frame.region_base < machine.regions.len() ==> machine.innermost(frame) == Some(
            machine.regions[machine.regions.len() - 1],
        ),
        frame.region_base == machine.regions.len() ==> machine.innermost(frame) is None,
{
}

} // verus!
