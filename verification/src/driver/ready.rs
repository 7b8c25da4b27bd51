//! Go on in the same frame after operations that neither wait nor call.
use vstd::prelude::*;
use crate::conversion_driver::{complete_primitives, PrimitiveCompletion};
use crate::driver::ordinary::{self, Entry};
use crate::driver::CallStep;
use crate::error::Error;
use crate::execution::{Machine, RunningExecution};
use crate::frame::FrameId;
use crate::frame_operations::direct;
use crate::frame_operations::numeric::{self, NumericProgress};
use crate::heap::Heap;
use crate::property_driver::{read_progress, PropertyProgress, ReadKey};
use crate::run::RunExit;
use crate::runtime::Runtime;
use crate::value::Completion;

verus! {

/// Why the driver has to look again.
#[derive(Clone, Copy, Debug, PartialEq, Eq, Structural)]
pub enum Boundary {
    Exit(RunExit),
    /// A helper scheduled work.
    Entered,
    /// The operands were checked and the identity was taken; the conversion
    /// can start.
    Conversion(RunExit),
    Complete(Completion),
}

/// Whether the loop goes on, and in which frame.
#[derive(Clone, Copy, Debug, PartialEq, Eq, Structural)]
pub enum Ready {
    Again(FrameId),
    Stop(Boundary),
}

impl Machine {
    /// What a property read means for the loop.
    pub open spec fn property_boundary(id: FrameId, progress: PropertyProgress) -> Ready {
        match progress {
            PropertyProgress::Completed => Ready::Again(id),
            PropertyProgress::Deferred(CallStep::Entered) => Ready::Stop(Boundary::Entered),
            PropertyProgress::Deferred(CallStep::Complete(completion)) => Ready::Stop(
                Boundary::Complete(completion),
            ),
            PropertyProgress::Deferred(CallStep::Bridge) => Ready::Stop(
                Boundary::Exit(RunExit::Bridge),
            ),
        }
    }

    /// Entering a call from the loop.
    pub open spec fn ready_call(
        self,
        heap: Heap,
        id: FrameId,
        arguments: u16,
        method: bool,
        tail: bool,
    ) -> (Heap, Machine, Result<Ready, Error>) {
        match self.enter_direct(heap, id, arguments, method, tail) {
            (heap, machine, Err(e)) => (heap, machine, Err(e)),
            (heap, machine, Ok(entry)) => (
                heap,
                machine,
                match entry {
                    Entry::Ordinary => if machine.frames.frames.len() > 0 {
                        Ok(Ready::Again(machine.frames.frames.last().id))
                    } else {
                        Err(Error::internal("driver lost its current frame"))
                    },
                    Entry::Native(CallStep::Entered) => Ok(Ready::Stop(Boundary::Entered)),
                    Entry::Native(CallStep::Complete(completion)) => Ok(
                        Ready::Stop(Boundary::Complete(completion)),
                    ),
                    Entry::Native(CallStep::Bridge) => Ok(
                        Ready::Stop(Boundary::Exit(RunExit::Bridge)),
                    ),
                    Entry::General => Ok(
                        Ready::Stop(Boundary::Exit(RunExit::Call { arguments, method, tail })),
                    ),
                },
            ),
        }
    }

    /// Completing one exit inside the loop.
    pub open spec fn ready_exit(self, heap: Heap, id: FrameId, exit: RunExit, next_operation: u64) -> (
        Heap,
        Machine,
        u64,
        Result<Ready, Error>,
    ) {
        match exit {
            RunExit::Call { arguments, method, tail } => {
                let (heap, machine, r) = self.ready_call(heap, id, arguments, method, tail);
                (heap, machine, next_operation, r)
            },
            RunExit::Complete => match self.finish_ordinary(heap, id) {
                (heap, machine, Err(e)) => (heap, machine, next_operation, Err(e)),
                (heap, machine, Ok(false)) => (
                    heap,
                    machine,
                    next_operation,
                    Ok(Ready::Stop(Boundary::Exit(exit))),
                ),
                (heap, machine, Ok(true)) => (
                    heap,
                    machine,
                    next_operation,
                    if machine.frames.frames.len() > 0 {
                        Ok(Ready::Again(machine.frames.frames.last().id))
                    } else {
                        Err(Error::internal("driver lost its current frame"))
                    },
                ),
            },
            RunExit::ReleaseOperand { keep_top } => match self.release_operand(heap, id, keep_top) {
                (heap, machine, Err(e)) => (heap, machine, next_operation, Err(e)),
                (heap, machine, Ok(true)) => (heap, machine, next_operation, Ok(Ready::Again(id))),
                (heap, machine, Ok(false)) => (
                    heap,
                    machine,
                    next_operation,
                    Err(Error::internal("direct slot completion changed its frame protocol")),
                ),
            },
            RunExit::Numeric(kind) => match self.numeric_complete(heap, id, kind) {
                (heap, machine, Err(e)) => (heap, machine, next_operation, Err(e)),
                (heap, machine, Ok(progress)) => (
                    heap,
                    machine,
                    next_operation,
                    match progress {
                        NumericProgress::Completed => Ok(Ready::Again(id)),
                        NumericProgress::Deferred(CallStep::Entered) => Ok(
                            Ready::Stop(Boundary::Entered),
                        ),
                        NumericProgress::Deferred(CallStep::Complete(completion)) => Ok(
                            Ready::Stop(Boundary::Complete(completion)),
                        ),
                        NumericProgress::Deferred(CallStep::Bridge) => Err(
                            Error::internal("numeric operation attempted replay"),
                        ),
                    },
                ),
            },
            RunExit::ConvertPlus | RunExit::ConvertAdd => match self.complete_primitives(
                heap,
                id,
                exit is ConvertAdd,
                next_operation,
            ) {
                (heap, machine, next, Err(e)) => (heap, machine, next, Err(e)),
                (heap, machine, next, Ok(completion)) => (
                    heap,
                    machine,
                    next,
                    Ok(
                        match completion {
                            PrimitiveCompletion::Completed => Ready::Again(id),
                            PrimitiveCompletion::Throw(value) => Ready::Stop(
                                Boundary::Complete(Completion::Throw(value)),
                            ),
                            PrimitiveCompletion::InvalidDomain => Ready::Stop(
                                Boundary::Exit(RunExit::Bridge),
                            ),
                            PrimitiveCompletion::Declined => Ready::Stop(
                                Boundary::Conversion(exit),
                            ),
                            PrimitiveCompletion::Deferred => Ready::Stop(Boundary::Entered),
                        },
                    ),
                ),
            },
            RunExit::GetField { index, keep_receiver } => match self.read_progress(
                heap,
                id,
                ReadKey::Static(index),
                keep_receiver,
            ) {
                (heap, machine, Err(e)) => (heap, machine, next_operation, Err(e)),
                (heap, machine, Ok(progress)) => (
                    heap,
                    machine,
                    next_operation,
                    Ok(Machine::property_boundary(id, progress)),
                ),
            },
            RunExit::GetElement { keep_receiver, keep_key } => match self.converts_key(id, 1) {
                Err(e) => (heap, self, next_operation, Err(e)),
                Ok(true) => (heap, self, next_operation, Ok(Ready::Stop(Boundary::Exit(exit)))),
                Ok(false) => match self.read_progress(
                    heap,
                    id,
                    ReadKey::Computed { keep_key },
                    keep_receiver,
                ) {
                    (heap, machine, Err(e)) => (heap, machine, next_operation, Err(e)),
                    (heap, machine, Ok(progress)) => (
                        heap,
                        machine,
                        next_operation,
                        Ok(Machine::property_boundary(id, progress)),
                    ),
                },
            },
            _ => (heap, self, next_operation, Ok(Ready::Stop(Boundary::Exit(exit)))),
        }
    }

    /// Whether a computed access has to convert its key: the base lies at
    /// `offset` and is not nullish, the key on top is an object.
    pub open spec fn converts_key(self, id: FrameId, offset: int) -> Result<bool, Error> {
        match self.frames.current(id) {
            Err(e) => Err(e),
            Ok(frame) => match (
                self.slots.peek(frame.window, offset),
                self.slots.peek(frame.window, 0),
            ) {
                (Err(e), _) => Err(e),
                (_, Err(e)) => Err(e),
                (Ok(base), Ok(key)) => Ok(!base.nullish() && key is Object),
            },
        }
    }

    /// Running until the driver has to look again.
    pub open spec fn ready(self, heap: Heap, id: FrameId, next_operation: u64, fuel: nat) -> (
        Heap,
        Machine,
        u64,
        nat,
        Result<Boundary, Error>,
    )
        decreases fuel,
    {
        let (machine, left, result) = self.run(heap, id, fuel);
        match machine.frames.current(id) {
            Err(e) => (heap, machine, next_operation, left, Err(e)),
            Ok(frame) => match heap.pc_updated(frame.cold.active_frame, frame.fault_pc) {
                (heap, Err(e)) => (heap, machine, next_operation, left, Err(e)),
                (heap, Ok(_)) => match result {
                    Err(e) => (heap, machine, next_operation, left, Err(e)),
                    Ok(exit) => match machine.ready_exit(heap, id, exit, next_operation) {
                        (heap, machine, next, Err(e)) => (heap, machine, next, left, Err(e)),
                        (heap, machine, next, Ok(Ready::Stop(boundary))) => (
                            heap,
                            machine,
                            next,
                            left,
                            Ok(boundary),
                        ),
                        (heap, machine, next, Ok(Ready::Again(id))) => if left < fuel {
                            machine.ready(heap, id, next, left)
                        } else {
                            (
                                heap,
                                machine,
                                next,
                                left,
                                Ok(Boundary::Exit(RunExit::Interrupted)),
                            )
                        },
                    },
                },
            },
        }
    }
}

pub fn property_boundary(id: FrameId, progress: PropertyProgress) -> (r: Ready)
    ensures
        r == Machine::property_boundary(id, progress),
{
    match progress {
        PropertyProgress::Completed => Ready::Again(id),
        PropertyProgress::Deferred(CallStep::Entered) => Ready::Stop(Boundary::Entered),
        PropertyProgress::Deferred(CallStep::Complete(completion)) => Ready::Stop(
            Boundary::Complete(completion),
        ),
        PropertyProgress::Deferred(CallStep::Bridge) => Ready::Stop(
            Boundary::Exit(RunExit::Bridge),
        ),
    }
}

/// Enter a call from the loop.
pub fn enter_call(
    runtime: &mut Runtime,
    execution: &mut RunningExecution,
    id: FrameId,
    arguments: u16,
    method: bool,
    tail: bool,
) -> (r: Result<Ready, Error>)
    requires
        old(runtime).wf(),
    ensures
        final(runtime).wf(),
        (final(runtime)@, final(execution)@, r) == old(execution)@.ready_call(
            old(runtime)@,
            id,
            arguments,
            method,
            tail,
        ),
{
    match ordinary::enter(runtime, execution, id, arguments, method, tail)? {
        Entry::Ordinary => current(execution),
        Entry::Native(CallStep::Entered) => Ok(Ready::Stop(Boundary::Entered)),
        Entry::Native(CallStep::Complete(completion)) => Ok(
            Ready::Stop(Boundary::Complete(completion)),
        ),
        Entry::Native(CallStep::Bridge) => Ok(Ready::Stop(Boundary::Exit(RunExit::Bridge))),
        Entry::General => Ok(
            Ready::Stop(Boundary::Exit(RunExit::Call { arguments, method, tail })),
        ),
    }
}

fn current(execution: &RunningExecution) -> (r: Result<Ready, Error>)
    ensures
        r == (if execution@.frames.frames.len() > 0 {
            Ok::<Ready, Error>(Ready::Again(execution@.frames.frames.last().id))
        } else {
            Err(Error::internal("driver lost its current frame"))
        }),
{
    match execution.frames.current_id() {
        Some(id) => Ok(Ready::Again(id)),
        None => Err(Error::internal("driver lost its current frame")),
    }
}

/// Whether a computed access has to convert its key first.
pub fn converts_key(execution: &RunningExecution, id: FrameId, offset: usize) -> (r: Result<bool, Error>)
    ensures
        r == execution@.converts_key(id, offset as int),
{
    let frame = execution.frames.current(id)?;
    let base = execution.slots.peek(frame.window, offset)?;
    let key = execution.slots.peek(frame.window, 0)?;
    Ok(!base.nullish() && key.is_object())
}

fn complete_exit(
    runtime: &mut Runtime,
    execution: &mut RunningExecution,
    id: FrameId,
    exit: RunExit,
    next_operation: &mut u64,
) -> (r: Result<Ready, Error>)
    requires
        old(runtime).wf(),
    ensures
        final(runtime).wf(),
        (final(runtime)@, final(execution)@, *final(next_operation), r)
            == old(execution)@.ready_exit(old(runtime)@, id, exit, *old(next_operation)),
{
    match exit {
        RunExit::Call { arguments, method, tail } => enter_call(
            runtime,
            execution,
            id,
            arguments,
            method,
            tail,
        ),
        RunExit::Complete => {
            if ordinary::finish(runtime, execution, id)? {
                current(execution)
            } else {
                Ok(Ready::Stop(Boundary::Exit(exit)))
            }
        },
        RunExit::ReleaseOperand { .. } => {
            if direct::complete(runtime, execution, id, exit)? {
                Ok(Ready::Again(id))
            } else {
                Err(Error::internal("direct slot completion changed its frame protocol"))
            }
        },
        RunExit::Numeric(kind) => match numeric::complete(runtime, execution, id, kind)? {
            NumericProgress::Completed => Ok(Ready::Again(id)),
            NumericProgress::Deferred(CallStep::Entered) => Ok(Ready::Stop(Boundary::Entered)),
            NumericProgress::Deferred(CallStep::Complete(completion)) => Ok(
                Ready::Stop(Boundary::Complete(completion)),
            ),
            NumericProgress::Deferred(CallStep::Bridge) => Err(
                Error::internal("numeric operation attempted replay"),
            ),
        },
        RunExit::ConvertPlus | RunExit::ConvertAdd => {
            let addition = exit == RunExit::ConvertAdd;
            Ok(
                match complete_primitives(runtime, execution, id, addition, next_operation)? {
                    PrimitiveCompletion::Completed => Ready::Again(id),
                    PrimitiveCompletion::Throw(value) => Ready::Stop(
                        Boundary::Complete(Completion::Throw(value)),
                    ),
                    PrimitiveCompletion::InvalidDomain => Ready::Stop(
                        Boundary::Exit(RunExit::Bridge),
                    ),
                    PrimitiveCompletion::Declined => Ready::Stop(Boundary::Conversion(exit)),
                    PrimitiveCompletion::Deferred => Ready::Stop(Boundary::Entered),
                },
            )
        },
        RunExit::GetField { index, keep_receiver } => {
            let progress = read_progress(
                runtime,
                execution,
                id,
                ReadKey::Static(index),
                keep_receiver,
            )?;
            Ok(property_boundary(id, progress))
        },
        RunExit::GetElement { keep_receiver, keep_key } => {
            if converts_key(execution, id, 1)? {
                return Ok(Ready::Stop(Boundary::Exit(exit)));
            }
            let progress = read_progress(
                runtime,
                execution,
                id,
                ReadKey::Computed { keep_key },
                keep_receiver,
            )?;
            Ok(property_boundary(id, progress))
        },
        _ => Ok(Ready::Stop(Boundary::Exit(exit))),
    }
}

/// Run the current frame, and the frames it calls and returns to directly,
/// until the driver has to look again.
#[verifier::loop_isolation(false)]
pub fn run(
    runtime: &mut Runtime,
    execution: &mut RunningExecution,
    id: FrameId,
    next_operation: &mut u64,
    fuel: &mut u64,
) -> (r: Result<Boundary, Error>)
    requires
        old(runtime).wf(),
    ensures
        final(runtime).wf(),
        *final(fuel) <= *old(fuel),
        (final(runtime)@, final(execution)@, *final(next_operation), *final(fuel) as nat, r)
            == old(execution)@.ready(old(runtime)@, id, *old(next_operation), *old(fuel) as nat),
{
    let mut id = id;
    let ghost expected = execution@.ready(runtime@, id, *next_operation, *fuel as nat);
    loop
        invariant
            runtime.wf(),
            *fuel <= *old(fuel),
            expected == execution@.ready(runtime@, id, *next_operation, *fuel as nat),
        decreases *fuel,
    {
        let before: u64 = *fuel;
        let result = crate::run::run(runtime, execution, id, fuel);
        let frame = execution.frames.current(id)?;
        runtime.update_active_bytecode_pc(frame.cold.active_frame, frame.fault_pc)?;
        let exit = result?;
        match complete_exit(runtime, execution, id, exit, next_operation)? {
            Ready::Stop(boundary) => {
                return Ok(boundary);
            },
            Ready::Again(next) => {
                if *fuel >= before {
                    return Ok(Boundary::Exit(RunExit::Interrupted));
                }
                id = next;
            },
        }
    }
}

/// A computed access converts its key exactly if the key on top is an object and
/// the base is neither undefined nor null: those fail before the key is looked
/// at.
pub proof fn object_keys_are_converted(
    machine: Machine,
    id: FrameId,
    frame: crate::frame::Frame,
    offset: int,
    base: crate::value::JsValue,
    key: crate::value::JsValue,
)
    requires
        machine.frames.current(id) == Ok::<crate::frame::Frame, Error>(frame),
        machine.slots.peek(frame.window, offset) == Ok::<crate::value::JsValue, Error>(base),
        machine.slots.peek(frame.window, 0) == Ok::<crate::value::JsValue, Error>(key),
    ensures
        machine.converts_key(id, offset) == Ok::<bool, Error>(
            key is Object && !(base is Undefined) && !(base is Null),
        ),
{
}

/// Whatever a read or an operation did at once goes on in the same frame; what
/// has to wait, and what is thrown, stops the loop with that.
pub proof fn finished_operations_go_on(
    machine: Machine,
    heap: Heap,
    id: FrameId,
    index: u32,
    keep_receiver: bool,
    kind: crate::code::NumericKind,
    next: u64,
    completion: Completion,
)
    ensures
        ({
            let (after, m, r) = machine.read_progress(
                heap,
                id,
                ReadKey::Static(index),
                keep_receiver,
            );
            let (read, reading, left, ready) = machine.ready_exit(
                heap,
                id,
                RunExit::GetField { index, keep_receiver },
                next,
            );
            &&& read == after && reading == m && left == next
            &&& r == Ok::<PropertyProgress, Error>(PropertyProgress::Completed) ==> ready == Ok::<
                Ready,
                Error,
            >(Ready::Again(id))
            &&& r == Ok::<PropertyProgress, Error>(
                PropertyProgress::Deferred(CallStep::Entered),
            ) ==> ready == Ok::<Ready, Error>(Ready::Stop(Boundary::Entered))
            &&& r == Ok::<PropertyProgress, Error>(
                PropertyProgress::Deferred(CallStep::Complete(completion)),
            ) ==> ready == Ok::<Ready, Error>(Ready::Stop(Boundary::Complete(completion)))
        }),
        ({
            let (after, m, r) = machine.numeric_complete(heap, id, kind);
            let (done, left_machine, left, ready) = machine.ready_exit(
                heap,
                id,
                RunExit::Numeric(kind),
                next,
            );
            &&& done == after && left_machine == m && left == next
            &&& r == Ok::<NumericProgress, Error>(NumericProgress::Completed) ==> ready == Ok::<
                Ready,
                Error,
            >(Ready::Again(id))
            &&& r == Ok::<NumericProgress, Error>(
                NumericProgress::Deferred(CallStep::Complete(completion)),
            ) ==> ready == Ok::<Ready, Error>(Ready::Stop(Boundary::Complete(completion)))
        }),
{
}

/// The loop follows calls into the frame that they made and returns into the
/// frame that they reached.
pub proof fn the_loop_follows_the_newest_frame(
    machine: Machine,
    heap: Heap,
    id: FrameId,
    arguments: u16,
    method: bool,
    tail: bool,
    next: u64,
    to: FrameId,
)
    ensures
        machine.ready_exit(heap, id, RunExit::Call { arguments, method, tail }, next).3 == Ok::<
            Ready,
            Error,
        >(Ready::Again(to)) ==> {
            let (after, m, r) = machine.enter_direct(heap, id, arguments, method, tail);
            &&& r == Ok::<Entry, Error>(Entry::Ordinary)
            &&& m.frames.is_current(to)
        },
        machine.ready_exit(heap, id, RunExit::Complete, next).3 == Ok::<Ready, Error>(
            Ready::Again(to),
        ) ==> {
            let (after, m, r) = machine.finish_ordinary(heap, id);
            &&& r == Ok::<bool, Error>(true)
            &&& m.frames.is_current(to)
        },
        machine.finish_ordinary(heap, id).2 == Ok::<bool, Error>(false) ==> machine.ready_exit(
            heap,
            id,
            RunExit::Complete,
            next,
        ).3 == Ok::<Ready, Error>(Ready::Stop(Boundary::Exit(RunExit::Complete))),
{
}

} // verus!
