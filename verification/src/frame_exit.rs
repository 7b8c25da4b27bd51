//! Complete and destroy a frame.
use vstd::prelude::*;
use crate::error::Error;
use crate::execution::{Machine, RunningExecution};
use crate::frame::{Frame, FrameId, ReturnTarget};
use crate::heap::Heap;
use crate::run::RunExit;
use crate::runtime::Runtime;
use crate::value::Completion;

verus! {

/// How a frame ended and who gets its completion.
#[derive(Clone, Copy, Debug, PartialEq, Eq, Structural)]
pub struct FrameExit {
    pub completion: Completion,
    pub return_to: Option<ReturnTarget>,
}

impl Machine {
    /// Removing what a popped frame had on the stack and in the regions.
    pub open spec fn cleared(self, frame: Frame) -> Machine {
        Machine {
            slots: self.slots.clear_frame(frame.window),
            regions: if frame.region_base <= self.regions.len() {
                self.regions.take(frame.region_base as int)
            } else {
                self.regions
            },
            ..self
        }
    }

    /// Ending the current frame with a forwarded completion, or with the value
    /// that its return instruction left.
    pub open spec fn finish_frame(
        self,
        heap: Heap,
        id: FrameId,
        exit: RunExit,
        forwarded: Option<Completion>,
    ) -> (Heap, Machine, Result<FrameExit, Error>) {
        if exit != RunExit::Complete {
            (heap, self, Err(Error::internal("driver did not handle a run exit")))
        } else {
            match self.frames.pop(id) {
                (frames, Err(e)) => (heap, Machine { frames, ..self }, Err(e)),
                (frames, Ok(frame)) => {
                    let popped = Machine { frames, ..self };
                    match (forwarded, self.pending) {
                        (None, None) => (
                            heap.retired(frame.cold.entry_guard),
                            popped,
                            Err(Error::internal("owned completion has no payload")),
                        ),
                        (Some(completion), _) => popped.cleared(frame).frame_ended(
                            heap,
                            frame,
                            completion,
                        ),
                        (None, Some(value)) => Machine { pending: None, ..popped }.cleared(
                            frame,
                        ).frame_ended(heap, frame, Completion::Return(value)),
                    }
                },
            }
        }
    }

    /// Ending the activation of a cleared frame and applying the constructor
    /// return rule.
    pub open spec fn frame_ended(self, heap: Heap, frame: Frame, completion: Completion) -> (
        Heap,
        Machine,
        Result<FrameExit, Error>,
    ) {
        let (heap, ended) = match frame.cold.entry_guard {
            Some(guard) => heap.finished(guard),
            None => (heap, Ok(())),
        };
        match ended {
            Err(e) => (heap, self, Err(e)),
            Ok(_) => {
                let (heap, r) = match frame.cold.constructor_return {
                    None => (heap, Ok(completion)),
                    Some(kind) => heap.constructor_result(
                        kind,
                        completion,
                        Error::internal(
                            "derived constructor bytecode returned an unvalidated primitive",
                        ),
                    ),
                };
                match r {
                    Err(e) => (heap, self, Err(e)),
                    Ok(completion) => (
                        heap,
                        self,
                        Ok(FrameExit { completion, return_to: frame.cold.return_to }),
                    ),
                }
            },
        }
    }
}

impl RunningExecution {
    /// Remove what a popped frame had on the stack and in the regions.
    pub fn clear(&mut self, frame: Frame)
        ensures
            final(self)@ == old(self)@.cleared(frame),
    {
        self.slots.clear_frame(frame.window);
        if frame.region_base <= self.regions.len() {
            self.regions.truncate(frame.region_base);
        }
        assert(self@.regions =~= old(self)@.cleared(frame).regions);
    }
}

/// End the current frame.
pub fn finish(
    runtime: &mut Runtime,
    execution: &mut RunningExecution,
    id: FrameId,
    exit: RunExit,
    forwarded: Option<Completion>,
) -> (r: Result<FrameExit, Error>)
    requires
        old(runtime).wf(),
    ensures
        final(runtime).wf(),
        (final(runtime)@, final(execution)@, r) == old(execution)@.finish_frame(
            old(runtime)@,
            id,
            exit,
            forwarded,
        ),
{
    if exit != RunExit::Complete {
        return Err(Error::internal("driver did not handle a run exit"));
    }
    let frame = execution.frames.pop(id)?;
    let completion = match forwarded {
        Some(completion) => completion,
        None => match execution.pending {
            Some(value) => {
                execution.pending = None;
                Completion::Return(value)
            },
            None => {
                runtime.retire_guard(frame.cold.entry_guard);
                return Err(Error::internal("owned completion has no payload"));
            },
        },
    };
    execution.clear(frame);
    match frame.cold.entry_guard {
        Some(guard) => {
            runtime.finish_active_frame(guard)?;
        },
        None => {},
    }
    let completion = match frame.cold.constructor_return {
        None => completion,
        Some(kind) => runtime.constructor_completion(
            kind,
            completion,
            Error::internal("derived constructor bytecode returned an unvalidated primitive"),
        )?,
    };
    Ok(FrameExit { completion, return_to: frame.cold.return_to })
}

/// A frame that is entered and then ended leaves the stack, the regions and
/// the frames below as they were.
pub proof fn ending_undoes_entering(
    machine: Machine,
    heap: Heap,
    entry: crate::call::request::Entry,
    after: Heap,
    completion: Completion,
)
    requires
        machine.push_entry(heap, entry).2 is Ok,
        machine.slots.values.len() <= usize::MAX,
        machine.regions.len() <= usize::MAX,
    ensures
        ({
            let (_, entered, id) = machine.push_entry(heap, entry);
            let (_, ended, r) = entered.finish_frame(
                after,
                id->Ok_0,
                RunExit::Complete,
                Some(completion),
            );
            &&& entry.cold.constructor_return is None && entry.cold.entry_guard is None ==> r == Ok::<
                FrameExit,
                Error,
            >(FrameExit { completion, return_to: entry.cold.return_to })
            &&& ended.slots == machine.slots
            &&& ended.regions == machine.regions
            &&& ended.frames.frames == machine.frames.frames
        }),
{
    let (_, entered, id) = machine.push_entry(heap, entry);
    assert(entered.frames.frames.drop_last() =~= machine.frames.frames);
    assert(entered.slots.values.take(machine.slots.values.len() as int) =~= machine.slots.values);
    assert(entered.regions.take(machine.regions.len() as int) =~= machine.regions);
}

/// What a frame ends with: a forwarded completion as it is, and otherwise the
/// value of its return instruction, which is then taken.
pub proof fn frames_end_with_their_completion(
    machine: Machine,
    heap: Heap,
    id: FrameId,
    frame: Frame,
    value: crate::value::JsValue,
    forwarded: Completion,
)
    requires
        machine.frames.current(id) == Ok::<Frame, Error>(frame),
        frame.cold.constructor_return is None,
        frame.cold.entry_guard matches Some(guard) ==> heap.finished(guard).1 is Ok,
    ensures
        machine.finish_frame(heap, id, RunExit::Complete, Some(forwarded)).2 == Ok::<
            FrameExit,
            Error,
        >(FrameExit { completion: forwarded, return_to: frame.cold.return_to }),
        machine.pending == Some(value) ==> {
            let (_, m, r) = machine.finish_frame(heap, id, RunExit::Complete, None);
            &&& r == Ok::<FrameExit, Error>(
                FrameExit {
                    completion: Completion::Return(value),
                    return_to: frame.cold.return_to,
                },
            )
            &&& m.pending is None
        },
        machine.pending is None ==> machine.finish_frame(heap, id, RunExit::Complete, None).2
            is Err,
{
}

} // verus!
